//! Unit tests of the configuration records and their path derivations.

use pipeline_manager::config::{
    default_binary_ref_port, default_compilation_profile, default_db_connection_string,
    default_demos_dir, default_override_path, default_server_address, default_server_port,
    default_sql_compiler_home, ApiServerConfig, AuthProviderType, CompilationProfile,
    CompilerConfig, DatabaseConfig, LocalRunnerConfig,
};
use pipeline_manager::types::PipelineId;
use pipeline_manager::Version;

fn compiler_config() -> CompilerConfig {
    CompilerConfig {
        compiler_working_directory: "/work".to_string(),
        compilation_profile: CompilationProfile::Optimized,
        sql_compiler_home: "/sql-home".to_string(),
        dbsp_override_path: ".".to_string(),
        precompile: false,
        binary_ref_host: "127.0.0.1".to_string(),
        binary_ref_port: 8085,
    }
}

#[test]
fn defaults() {
    assert_eq!(default_server_port(), 8080);
    assert_eq!(default_server_address(), "127.0.0.1");
    assert_eq!(default_override_path(), ".");
    assert_eq!(default_sql_compiler_home(), "sql-to-dbsp-compiler");
    assert_eq!(default_db_connection_string(), "postgres-embed");
    assert_eq!(default_binary_ref_port(), 8085);
    assert_eq!(default_compilation_profile(), CompilationProfile::Optimized);
    assert_eq!(default_demos_dir(), vec!["demo/packaged/sql".to_string()]);
}

#[test]
fn database_connection_string_is_returned_verbatim() {
    let config = DatabaseConfig {
        db_connection_string: "postgres-embed".to_string(),
    };
    assert_eq!(config.database_connection_string(), "postgres-embed");
    let config = DatabaseConfig {
        db_connection_string: "postgres://localhost:5432".to_string(),
    };
    assert_eq!(
        config.database_connection_string(),
        "postgres://localhost:5432"
    );
}

#[test]
fn auth_provider_labels() {
    assert_eq!(AuthProviderType::default(), AuthProviderType::NoAuth);
    assert_eq!(AuthProviderType::NoAuth.label(), "none");
    assert_eq!(AuthProviderType::AwsCognito.label(), "aws-cognito");
    assert_eq!(AuthProviderType::GoogleIdentity.label(), "google-identity");
}

#[test]
fn api_server_paths() {
    let config = ApiServerConfig {
        api_server_working_directory: "/api".to_string(),
        port: 8080,
        bind_address: "127.0.0.1".to_string(),
        auth_provider: AuthProviderType::NoAuth,
        dump_openapi: false,
        config_file: None,
        allowed_origins: None,
        dev_mode: false,
        demos_dir: default_demos_dir(),
        telemetry: String::new(),
        runner_hostname_port: "127.0.0.1:8089".to_string(),
    };
    assert_eq!(config.postgres_embed_data_dir(), "/api/data");
}

#[test]
fn binary_and_crate_names_key_on_the_identifier() {
    assert_eq!(
        CompilerConfig::binary_name(PipelineId(12), Version(3)),
        "project_12_v3"
    );
    assert_eq!(CompilerConfig::crate_name(PipelineId(12)), "project12");
}

#[test]
fn compiler_paths() {
    let c = compiler_config();
    let pid = PipelineId(7);
    assert_eq!(c.workspace_dir(), "/work/cargo_workspace");
    assert_eq!(c.binaries_dir(), "/work/binaries");
    assert_eq!(
        c.versioned_executable(pid, Version(2)),
        "/work/binaries/project_7_v2"
    );
    assert_eq!(
        c.target_executable(pid, &CompilationProfile::Optimized),
        "/work/cargo_workspace/target/optimized/project7"
    );
    assert_eq!(
        c.target_executable(pid, &CompilationProfile::Dev),
        "/work/cargo_workspace/target/debug/project7"
    );
    assert_eq!(c.project_dir(pid), "/work/cargo_workspace/project7");
    assert_eq!(c.sql_file_path(pid), "/work/cargo_workspace/project7/project.sql");
    assert_eq!(c.schema_path(pid), "/work/cargo_workspace/project7/schema.json");
    assert_eq!(
        c.rust_program_path(pid),
        "/work/cargo_workspace/project7/src/main.rs"
    );
    assert_eq!(
        c.project_toml_path(pid),
        "/work/cargo_workspace/project7/Cargo.toml"
    );
    assert_eq!(c.udf_path(pid), "/work/cargo_workspace/project7/src/udf.rs");
    assert_eq!(
        c.udf_stub_path(pid),
        "/work/cargo_workspace/project7/src/stubs.rs"
    );
    assert_eq!(c.workspace_toml_path(), "/work/cargo_workspace/Cargo.toml");
    assert_eq!(c.sql_compiler_path(), "/sql-home/SQL-compiler/sql-to-dbsp");
    assert_eq!(c.sql_lib_path(), "/sql-home/lib");
    assert_eq!(c.project_toml_template_path(), "/sql-home/temp/Cargo.toml");
    assert_eq!(
        c.compiler_stdout_path(pid),
        "/work/cargo_workspace/project7/out.log"
    );
    assert_eq!(
        c.compiler_stderr_path(pid),
        "/work/cargo_workspace/project7/err.log"
    );
}

#[test]
fn target_folders() {
    assert_eq!(CompilationProfile::Dev.to_target_folder(), "debug");
    assert_eq!(CompilationProfile::Unoptimized.to_target_folder(), "unoptimized");
    assert_eq!(CompilationProfile::Optimized.to_target_folder(), "optimized");
}

#[test]
fn local_runner_paths() {
    let c = LocalRunnerConfig {
        runner_main_port: 8089,
        runner_working_directory: "/runner".to_string(),
        pipeline_host: "127.0.0.1".to_string(),
    };
    let pid = PipelineId(3);
    assert_eq!(c.pipeline_dir(pid), "/runner/pipelines/pipeline3");
    assert_eq!(
        c.binary_file_path(pid, Version(5)),
        "/runner/pipelines/pipeline3/program_3_v5"
    );
    assert_eq!(
        c.config_file_path(pid),
        "/runner/pipelines/pipeline3/config.yaml"
    );
}
