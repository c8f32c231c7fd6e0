//! The response envelope the agent's HTTP layer wraps results in. The
//! envelope itself is plain data; only the empty-object placeholder of error
//! envelopes comes from the JSON library.

use vstd::prelude::*;
use vstd::string::StringExecFns;

verus! {

#[verifier::external_type_specification]
#[verifier::external_body]
pub struct ExValue(serde_json::Value);

/// Relies on `serde_json::Map::new` and `serde_json::Value::Object`: builds
/// the empty JSON object placed in error envelopes. The value is opaque here;
/// nothing further is assumed of it.
#[verifier::external_body]
fn empty_object() -> (r: serde_json::Value) {
    serde_json::Value::Object(serde_json::Map::new())
}

/// Envelope around a result payload.
#[derive(Debug)]
pub struct JsonWrapper<A> {
    pub code: u16,
    pub status: String,
    pub results: A,
}

impl JsonWrapper<serde_json::Value> {
    /// Error envelope: the given code and status around an empty object.
    pub fn error(code: u16, status: String) -> (r: JsonWrapper<serde_json::Value>)
        ensures
            r.code == code,
            r.status@ == status@,
    {
        JsonWrapper { code, status, results: empty_object() }
    }
}

impl<A> JsonWrapper<A> {
    /// Success envelope: code 200 and status `Success` around the results.
    pub fn success(results: A) -> (r: JsonWrapper<A>)
        ensures
            r.code == 200,
            r.status@ == "Success"@,
            r.results == results,
    {
        JsonWrapper { code: 200, status: String::from_str("Success"), results }
    }
}

} // verus!
