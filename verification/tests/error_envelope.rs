//! Unit tests of the error-envelope parsing for non-2xx pipeline answers.

use pipeline_manager::automaton::{classify_stats_response, error_response_from_json};
use pipeline_manager::transition::StatusCheckResult;
use pipeline_manager::error::ErrorResponse;
use pipeline_manager::types::PipelineId;

const PID: PipelineId = PipelineId(11);

#[test]
fn well_formed_envelope_is_parsed() {
    let body: serde_json::Value = serde_json::from_str(
        r#"{ "message": "it broke", "error_code": "Broken", "details": { "at": 3 } }"#,
    )
    .unwrap();
    assert_eq!(
        error_response_from_json(PID, 500, &body),
        ErrorResponse::PipelineEndpointError {
            error_code: "Broken".to_string(),
            message: "it broke".to_string()
        }
    );
}

#[test]
fn missing_fields_wrap_as_invalid_response() {
    let body: serde_json::Value = serde_json::from_str(r#"{ "message": "it broke" }"#).unwrap();
    assert!(matches!(
        error_response_from_json(PID, 500, &body),
        ErrorResponse::InvalidPipelineResponse { pipeline_id: PID, .. }
    ));
}

#[test]
fn non_string_fields_wrap_as_invalid_response() {
    let body: serde_json::Value =
        serde_json::from_str(r#"{ "message": 5, "error_code": "Broken" }"#).unwrap();
    assert!(matches!(
        error_response_from_json(PID, 500, &body),
        ErrorResponse::InvalidPipelineResponse { pipeline_id: PID, .. }
    ));
}

#[test]
fn non_object_body_wraps_as_invalid_response() {
    let body: serde_json::Value = serde_json::from_str("[1, 2]").unwrap();
    assert!(matches!(
        error_response_from_json(PID, 500, &body),
        ErrorResponse::InvalidPipelineResponse { pipeline_id: PID, .. }
    ));
}

#[test]
fn stats_answers_are_classified_exactly() {
    let paused: serde_json::Value =
        serde_json::from_str(r#"{ "global_metrics": { "state": "Paused" } }"#).unwrap();
    assert_eq!(
        classify_stats_response(PID, 200, &paused),
        StatusCheckResult::Paused
    );
    let running: serde_json::Value =
        serde_json::from_str(r#"{ "global_metrics": { "state": "Running" } }"#).unwrap();
    assert_eq!(
        classify_stats_response(PID, 200, &running),
        StatusCheckResult::Running
    );
    let terminated: serde_json::Value =
        serde_json::from_str(r#"{ "global_metrics": { "state": "Terminated" } }"#).unwrap();
    match classify_stats_response(PID, 200, &terminated) {
        StatusCheckResult::Error(ErrorResponse::InvalidPipelineResponse {
            pipeline_id,
            error,
        }) => {
            assert_eq!(pipeline_id, PID);
            // The offending state is named in the error.
            assert!(error.contains("Terminated"));
        }
        other => panic!("unexpected classification: {:?}", other),
    }
    let no_state: serde_json::Value = serde_json::from_str(r#"{ "global_metrics": {} }"#).unwrap();
    assert!(matches!(
        classify_stats_response(PID, 200, &no_state),
        StatusCheckResult::Error(ErrorResponse::InvalidPipelineResponse { .. })
    ));
    let empty: serde_json::Value = serde_json::from_str("{}").unwrap();
    assert_eq!(
        classify_stats_response(PID, 503, &empty),
        StatusCheckResult::Unavailable
    );
    let envelope: serde_json::Value = serde_json::from_str(
        r#"{ "message": "it broke", "error_code": "Broken", "details": {} }"#,
    )
    .unwrap();
    assert_eq!(
        classify_stats_response(PID, 500, &envelope),
        StatusCheckResult::Error(ErrorResponse::PipelineEndpointError {
            error_code: "Broken".to_string(),
            message: "it broke".to_string()
        })
    );
}

#[test]
fn invalid_envelope_names_the_status() {
    let body: serde_json::Value = serde_json::from_str("[1, 2]").unwrap();
    match error_response_from_json(PID, 502, &body) {
        ErrorResponse::InvalidPipelineResponse { error, .. } => {
            assert!(error.contains("502"));
        }
        other => panic!("unexpected parse: {:?}", other),
    }
}
