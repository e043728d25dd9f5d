//! The request contract, and one module per remote method.
//!
//! A request value carries everything a call needs; [`Request`] is the
//! uniform capability every concrete request implements: a fixed method
//! name, a self-serialization to a JSON object that omits unset optional
//! fields, and a decoder for the typed output the method returns.  With
//! those three, one generic transport path serves every method.

use vstd::prelude::*;
use crate::json::{Json, JsonV};

pub mod edit_message_reply_markup;
pub mod set_chat_permissions;

pub use edit_message_reply_markup::EditMessageReplyMarkup;
pub use set_chat_permissions::SetChatPermissions;

verus! {

/// The uniform contract of a remote call: a compile-time method name, a
/// payload that is a function of the request's fields alone, and a decoder
/// for the method's typed output.
pub trait Request: Sized {
    /// What a successful call yields.
    type Output;

    /// The method name, as the endpoint path spells it.
    spec fn spec_method(&self) -> Seq<char>;

    /// The JSON object this request serializes to.
    spec fn spec_payload(&self) -> JsonV;

    /// The typed output read from a success envelope's `result` document,
    /// or `None` when the document does not have the output's shape.
    spec fn spec_output(v: JsonV) -> Option<Self::Output>;

    /// The method name.
    fn method(&self) -> (r: &'static str)
        ensures
            r@ == self.spec_method(),
    ;

    /// Serializes the request to its JSON object.
    fn payload(&self) -> (r: Json)
        ensures
            r@ == self.spec_payload(),
    ;

    /// Decodes a success envelope's `result` document.
    fn decode_output(v: &Json) -> (r: Option<Self::Output>)
        ensures
            r == Self::spec_output(v@),
    ;
}

} // verus!
