//! Validation rules of the user-facing API's pipeline interactions.
//!
//! The HTTP endpoints themselves live with the binaries; here stand the
//! rules they decide by.

use vstd::prelude::*;
use crate::strutil::str_matches;

verus! {

/// Validates the action named in a connector action request: `start` and
/// `pause` are the accepted actions, answered with the verb used for
/// reporting; anything else is handed back as invalid.
pub fn validate_connector_action(action: &str) -> (r: Result<String, String>)
    ensures
        action@ == "start"@ ==> (r matches Ok(v) && v@ == "starting"@),
        action@ == "pause"@ ==> (r matches Ok(v) && v@ == "pausing"@),
        (action@ != "start"@ && action@ != "pause"@) ==> (r matches Err(e) && e@ == action@),
{
    proof {
        reveal_strlit("start");
        reveal_strlit("pause");
        assert("start"@[0] != "pause"@[0]);
    }
    if str_matches(action, "start") {
        Ok("starting".to_owned())
    } else if str_matches(action, "pause") {
        Ok("pausing".to_owned())
    } else {
        Err(action.to_owned())
    }
}

/// The pipeline endpoint a connector action is forwarded to, from the
/// already URL-encoded endpoint name and the validated action.
pub fn connector_action_endpoint(encoded_endpoint_name: &str, action: &str) -> (r: String)
    ensures
        r@ == "input_endpoints/"@ + encoded_endpoint_name@ + "/"@ + action@,
{
    let mut r = "input_endpoints/".to_owned();
    r.append(encoded_endpoint_name);
    r.append("/");
    r.append(action);
    r
}

} // verus!
