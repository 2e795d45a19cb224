//! The envelope that every answer of the daemon comes in.

use crate::decode::{members_of, required, required_defect, required_holds, FromJson};
use crate::error::{DecodeError, Finding};
use crate::json::{same_text, Json, JsonView};
use crate::types::seal::Sealed;
use vstd::prelude::*;

verus! {

/// Marks the payloads that an answer can carry: one type for each method's result, and no
/// other. The envelope takes only these, so an answer cannot be read as the payload of
/// another method by accident.
pub trait RpcResponseArgument: FromJson + Sealed {

}

/// An answer of the daemon: the payload, and the word that says whether the call succeeded.
#[derive(Debug)]
pub struct RpcResponse<T: RpcResponseArgument> {
    pub arguments: T,
    pub result: String,
}

impl<T: RpcResponseArgument> RpcResponse<T> {
    /// What keeps `v` from encoding an answer with a payload of type `T`, if anything does.
    pub open spec fn defect(v: JsonView) -> Option<DecodeError> {
        match v {
            JsonView::Object(m) => required_defect::<T>(m, "arguments").otherwise(
                required_defect::<String>(m, "result"),
            ),
            _ => Some(DecodeError::NotAnObject),
        }
    }

    /// Whether `v` encodes this answer.
    pub open spec fn encoded_by(&self, v: JsonView) -> bool {
        &&& v matches JsonView::Object(m)
        &&& required_holds(m, "arguments", self.arguments)
        &&& required_holds(m, "result", self.result)
    }

    /// Whether the call succeeded: the result is the word `success`, letter for letter.
    pub open spec fn succeeded(&self) -> bool {
        self.result@ == "success"@
    }

    /// Decodes an answer. The payload is held to its own type; the envelope asks nothing of
    /// it beyond that, and reads it whatever the result says.
    pub fn decode(json: &Json) -> (decoded: Result<RpcResponse<T>, DecodeError>)
        ensures
            match decoded {
                Ok(response) => Self::defect(json@) is None && response.encoded_by(json@),
                Err(fault) => Self::defect(json@) == Some(fault),
            },
    {
        let m = match json {
            Json::Object(m) => m,
            _ => { return Err(DecodeError::NotAnObject); },
        };
        Ok(RpcResponse { arguments: required(m, "arguments")?, result: required(m, "result")? })
    }

    /// Whether the call succeeded. Any other result than `success` is the daemon's account of
    /// a failure, and the payload beside it is not to be relied on.
    pub fn is_ok(&self) -> (ok: bool)
        ensures
            ok <==> self.succeeded(),
    {
        same_text(self.result.as_str(), "success")
    }
}

} // verus!
