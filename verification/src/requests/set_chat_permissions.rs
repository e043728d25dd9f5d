//! Use this method to set default chat permissions for all members.
//!
//! The bot must be an administrator with the right to restrict members.
//! On success the remote side answers with the boolean sentinel.

use vstd::prelude::*;
use crate::bot::Bot;
use crate::json::{jv_pairs, obj_no_null, string_of, Json, JsonV};
use crate::net::{method_url, spec_method_url};
use crate::requests::Request;
use crate::types::{spec_true_of, ChatId, ChatPermissions, True};

verus! {

broadcast use {
    crate::json::lemma_jv_seq_len,
    crate::json::lemma_jv_seq_index,
    crate::json::lemma_jv_pairs_len,
    crate::json::lemma_jv_pairs_index,
};

/// A request to set the default member permissions of a chat.  Both
/// parameters are required; there is no optional field to omit.
pub struct SetChatPermissions<'a> {
    pub bot: &'a Bot,
    pub chat_id: ChatId,
    pub permissions: ChatPermissions,
}

impl<'a> SetChatPermissions<'a> {
    /// A fresh request carrying both required parameters.
    pub fn new(bot: &'a Bot, chat_id: ChatId, permissions: ChatPermissions) -> (r: Self)
        ensures
            r.bot == bot,
            r.chat_id == chat_id,
            r.permissions == permissions,
    {
        Self { bot, chat_id, permissions }
    }

    /// Replaces the chat target, keeping everything else.
    pub fn chat_id(self, val: ChatId) -> (r: Self)
        ensures
            r.bot == self.bot,
            r.chat_id == val,
            r.permissions == self.permissions,
    {
        Self { chat_id: val, ..self }
    }

    /// Replaces the permissions, keeping everything else.
    pub fn permissions(self, val: ChatPermissions) -> (r: Self)
        ensures
            r.bot == self.bot,
            r.chat_id == self.chat_id,
            r.permissions == val,
    {
        Self { permissions: val, ..self }
    }

    /// The endpoint this request is sent to, derived from the borrowed
    /// handle's token and the fixed method name.
    pub fn url(&self) -> (r: String)
        ensures
            r@ == spec_method_url(self.bot.spec_token(), self.spec_method()),
    {
        method_url(self.bot.token(), self.method())
    }
}

impl<'a> Request for SetChatPermissions<'a> {
    type Output = True;

    open spec fn spec_method(&self) -> Seq<char> {
        "setChatPermissions"@
    }

    open spec fn spec_payload(&self) -> JsonV {
        JsonV::Obj(
            seq![
                ("chat_id"@, self.chat_id.spec_json()),
                ("permissions"@, self.permissions.spec_json()),
            ],
        )
    }

    open spec fn spec_output(v: JsonV) -> Option<True> {
        spec_true_of(v)
    }

    fn method(&self) -> (r: &'static str) {
        "setChatPermissions"
    }

    fn payload(&self) -> (r: Json) {
        let mut pairs: Vec<(String, Json)> = Vec::new();
        pairs.push((string_of("chat_id"), self.chat_id.to_json()));
        pairs.push((string_of("permissions"), self.permissions.to_json()));
        proof {
            assert(jv_pairs(pairs@) =~= seq![
                ("chat_id"@, self.chat_id.spec_json()),
                ("permissions"@, self.permissions.spec_json()),
            ]);
        }
        Json::Obj(pairs)
    }

    fn decode_output(v: &Json) -> (r: Option<True>) {
        True::from_json(v)
    }
}

/// A freshly constructed request serializes to an object holding exactly
/// the two required keys, and no `null` among the values.
pub proof fn lemma_payload_has_exactly_required_keys(r: &SetChatPermissions)
    ensures
        r.spec_payload() matches JsonV::Obj(pairs) && pairs.len() == 2 && pairs[0].0 == "chat_id"@
            && pairs[1].0 == "permissions"@ && obj_no_null(pairs),
{
    let pairs = seq![
        ("chat_id"@, r.chat_id.spec_json()),
        ("permissions"@, r.permissions.spec_json()),
    ];
    assert(!(pairs[0].1 is Null));
    assert(!(pairs[1].1 is Null));
}

/// Two independently constructed but field-identical requests serialize to
/// the same payload, name the same method, and - under the same token -
/// address the same endpoint.
pub proof fn lemma_identical_requests_serialize_identically(
    a: &SetChatPermissions,
    b: &SetChatPermissions,
)
    requires
        a.chat_id == b.chat_id,
        a.permissions == b.permissions,
    ensures
        a.spec_payload() == b.spec_payload(),
        a.spec_method() == b.spec_method(),
        a.bot.spec_token() == b.bot.spec_token() ==> spec_method_url(
            a.bot.spec_token(),
            a.spec_method(),
        ) == spec_method_url(b.bot.spec_token(), b.spec_method()),
{
}

} // verus!
