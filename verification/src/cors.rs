//! The cross-origin policy that every response is sent under.

use vstd::prelude::*;

verus! {

/// The cross-origin policy of the service: any origin, the four methods the
/// service answers, any header, with credentials.
#[derive(Clone, Copy, Debug)]
pub struct CORS;

impl CORS {
    /// The headers of the policy, in the order they are set.
    pub open spec fn policy() -> Seq<(Seq<char>, Seq<char>)> {
        seq![
            ("Access-Control-Allow-Origin"@, "*"@),
            ("Access-Control-Allow-Methods"@, "POST, GET, PATCH, OPTIONS"@),
            ("Access-Control-Allow-Headers"@, "*"@),
            ("Access-Control-Allow-Credentials"@, "true"@),
        ]
    }

    /// What the policy is registered as.
    pub fn info(&self) -> (name: String)
        ensures
            name@ == "Attaching CORS headers to responses"@,
    {
        "Attaching CORS headers to responses".to_string()
    }

    /// The headers to set on a response: each a name and a value.
    pub fn on_response(&self) -> (headers: Vec<(String, String)>)
        ensures
            headers@.len() == CORS::policy().len(),
            forall|i: int|
                0 <= i < headers@.len() ==> (#[trigger] headers@[i]).0@ == CORS::policy()[i].0
                    && headers@[i].1@ == CORS::policy()[i].1,
    {
        let mut headers: Vec<(String, String)> = Vec::new();
        headers.push(("Access-Control-Allow-Origin".to_string(), "*".to_string()));
        headers.push(
            ("Access-Control-Allow-Methods".to_string(), "POST, GET, PATCH, OPTIONS".to_string()),
        );
        headers.push(("Access-Control-Allow-Headers".to_string(), "*".to_string()));
        headers.push(("Access-Control-Allow-Credentials".to_string(), "true".to_string()));
        headers
    }
}

} // verus!
