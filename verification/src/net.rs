//! The transport function's computing half.
//!
//! Every request funnels through the same steps: the endpoint is derived
//! from the token and the method name ([`method_url`]), the response body is
//! read as the tagged envelope `{"ok": bool, "result"?: ..., "error_code"?:
//! int, "description"?: string}` ([`decode_envelope`]), and on success the
//! `result` document is decoded into the request's typed output
//! ([`handle_response`]).  The HTTP exchange itself - the one step that
//! suspends - is the caller's; it hands the parsed response document in and
//! takes the typed result back.

use vstd::prelude::*;
use vstd::string::StringExecFns;
use crate::json::{obj_has_key, obj_lookup, Json, JsonV};
use crate::requests::Request;

verus! {

/// Why a call failed.
#[derive(Debug)]
pub enum RequestError {
    /// A well-formed envelope with `ok = false`: the remote error code and
    /// its human-readable description.
    Api { code: i64, description: String },
    /// The exchange itself failed before an envelope was read: connection,
    /// timeout, or a body that is not JSON.  Carried through for the caller
    /// that performed the exchange.
    Network(String),
    /// The body is JSON but not a well-formed envelope.
    MalformedEnvelope,
    /// The envelope signalled success but `result` does not have the shape
    /// of the request's output type.
    UnexpectedShape,
}

/// The result of sending a request.
pub type ResponseResult<T> = Result<T, RequestError>;

/// The endpoint of a method: the fixed host, then `bot` and the token, then
/// the method name.
pub open spec fn spec_method_url(token: Seq<char>, method: Seq<char>) -> Seq<char> {
    "https://api.telegram.org/bot"@ + token + "/"@ + method
}

/// Builds the endpoint URL for a method.
pub fn method_url(token: &str, method: &str) -> (r: String)
    ensures
        r@ == spec_method_url(token@, method@),
{
    let mut out = String::new();
    out.append("https://api.telegram.org/bot");
    out.append(token);
    out.append("/");
    out.append(method);
    proof {
        assert(out@ =~= spec_method_url(token@, method@));
    }
    out
}

/// A success envelope: an object whose `ok` member is `true` and which
/// carries a `result` member.
pub open spec fn env_ok(v: JsonV) -> bool {
    &&& v matches JsonV::Obj(pairs)
    &&& obj_has_key(pairs, "ok"@)
    &&& obj_lookup(pairs, "ok"@) == JsonV::Bool(true)
    &&& obj_has_key(pairs, "result"@)
}

/// The `result` member of a success envelope.
pub open spec fn env_result(v: JsonV) -> JsonV {
    obj_lookup(v->Obj_0, "result"@)
}

/// A failure envelope: an object whose `ok` member is `false`, with an
/// integer `error_code` and a string `description`.
pub open spec fn env_err(v: JsonV) -> bool {
    &&& v matches JsonV::Obj(pairs)
    &&& obj_has_key(pairs, "ok"@)
    &&& obj_lookup(pairs, "ok"@) == JsonV::Bool(false)
    &&& obj_has_key(pairs, "error_code"@)
    &&& obj_lookup(pairs, "error_code"@) matches JsonV::Int(_)
    &&& obj_has_key(pairs, "description"@)
    &&& obj_lookup(pairs, "description"@) matches JsonV::Str(_)
}

/// The `error_code` member of a failure envelope.
pub open spec fn env_err_code(v: JsonV) -> int {
    obj_lookup(v->Obj_0, "error_code"@)->Int_0
}

/// The `description` member of a failure envelope.
pub open spec fn env_err_desc(v: JsonV) -> Seq<char> {
    obj_lookup(v->Obj_0, "description"@)->Str_0
}

/// Splits a response document into the `result` of a success envelope, the
/// structured error of a failure envelope, or the malformed-envelope error
/// for every other shape.
pub fn decode_envelope<'a>(env: &'a Json) -> (r: Result<&'a Json, RequestError>)
    ensures
        env_ok(env@) ==> (r matches Ok(v) && v@ == env_result(env@)),
        env_err(env@) ==> (r matches Err(e) && e matches RequestError::Api { code, description }
            && code as int == env_err_code(env@) && description@ == env_err_desc(env@)),
        !env_ok(env@) && !env_err(env@) ==> (r matches Err(e) && e is MalformedEnvelope),
{
    match env.get("ok") {
        Some(okv) => match okv {
            Json::Bool(b) => {
                if *b {
                    match env.get("result") {
                        Some(res) => Ok(res),
                        None => Err(RequestError::MalformedEnvelope),
                    }
                } else {
                    let code: i64 = match env.get("error_code") {
                        Some(c) => match c {
                            Json::Int(n) => *n,
                            _ => {
                                return Err(RequestError::MalformedEnvelope);
                            },
                        },
                        None => {
                            return Err(RequestError::MalformedEnvelope);
                        },
                    };
                    let description: String = match env.get("description") {
                        Some(d) => match d {
                            Json::Str(s) => s.clone(),
                            _ => {
                                return Err(RequestError::MalformedEnvelope);
                            },
                        },
                        None => {
                            return Err(RequestError::MalformedEnvelope);
                        },
                    };
                    Err(RequestError::Api { code, description })
                }
            },
            _ => Err(RequestError::MalformedEnvelope),
        },
        None => Err(RequestError::MalformedEnvelope),
    }
}

/// Turns a parsed response document into the request's typed result: the
/// decoded `result` of a success envelope, the structured error of a
/// failure envelope, the shape error when `result` does not decode, and the
/// malformed-envelope error for every other document.
pub fn handle_response<R: Request>(env: &Json) -> (r: ResponseResult<R::Output>)
    ensures
        env_ok(env@) ==> r == (match R::spec_output(env_result(env@)) {
            Some(out) => Ok::<R::Output, RequestError>(out),
            None => Err::<R::Output, RequestError>(RequestError::UnexpectedShape),
        }),
        env_err(env@) ==> (r matches Err(e) && e matches RequestError::Api { code, description }
            && code as int == env_err_code(env@) && description@ == env_err_desc(env@)),
        !env_ok(env@) && !env_err(env@) ==> (r matches Err(e) && e is MalformedEnvelope),
{
    match decode_envelope(env) {
        Ok(res) => match R::decode_output(res) {
            Some(out) => Ok(out),
            None => Err(RequestError::UnexpectedShape),
        },
        Err(e) => Err(e),
    }
}

} // verus!
