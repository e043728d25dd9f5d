//! Use this method to edit only the reply markup of messages.
//!
//! On success, if the edited message was sent by the bot itself, the remote
//! side returns the edited message, and the result document decodes into
//! [`Message`].

use vstd::prelude::*;
use crate::bot::Bot;
use crate::json::{jv_pairs, obj_has_key, obj_lookup, obj_no_null, string_of, Json, JsonV};
use crate::json::lemma_lookup_at_first_match;
use crate::net::{method_url, spec_method_url};
use crate::requests::Request;
use crate::types::{spec_message_of, ChatOrInlineMessage, InlineKeyboardMarkup, Message};

verus! {

broadcast use {
    crate::json::lemma_jv_seq_len,
    crate::json::lemma_jv_seq_index,
    crate::json::lemma_jv_pairs_len,
    crate::json::lemma_jv_pairs_index,
};

/// A request to edit the reply markup of the targeted message.
pub struct EditMessageReplyMarkup<'a> {
    pub bot: &'a Bot,
    pub chat_or_inline_message: ChatOrInlineMessage,
    pub reply_markup: Option<InlineKeyboardMarkup>,
}

impl<'a> EditMessageReplyMarkup<'a> {
    /// The pairs the optional field contributes to the payload: one pair
    /// when set, none at all when unset.
    pub open spec fn spec_opt_fields(&self) -> Seq<(Seq<char>, JsonV)> {
        match self.reply_markup {
            Some(kb) => seq![("reply_markup"@, kb.spec_json())],
            None => Seq::empty(),
        }
    }

    /// A fresh request on the given target, with the optional field unset.
    pub fn new(bot: &'a Bot, chat_or_inline_message: ChatOrInlineMessage) -> (r: Self)
        ensures
            r.bot == bot,
            r.chat_or_inline_message == chat_or_inline_message,
            r.reply_markup is None,
    {
        Self { bot, chat_or_inline_message, reply_markup: None }
    }

    /// Replaces the whole target, keeping everything else.
    pub fn chat_or_inline_message(self, val: ChatOrInlineMessage) -> (r: Self)
        ensures
            r.bot == self.bot,
            r.chat_or_inline_message == val,
            r.reply_markup == self.reply_markup,
    {
        Self { chat_or_inline_message: val, ..self }
    }

    /// Sets the inline keyboard, keeping everything else.
    pub fn reply_markup(self, val: InlineKeyboardMarkup) -> (r: Self)
        ensures
            r.bot == self.bot,
            r.chat_or_inline_message == self.chat_or_inline_message,
            r.reply_markup == Some(val),
    {
        Self { reply_markup: Some(val), ..self }
    }

    /// The endpoint this request is sent to, derived from the borrowed
    /// handle's token and the fixed method name.
    pub fn url(&self) -> (r: String)
        ensures
            r@ == spec_method_url(self.bot.spec_token(), self.spec_method()),
    {
        method_url(self.bot.token(), self.method())
    }
}

impl<'a> Request for EditMessageReplyMarkup<'a> {
    type Output = Message;

    open spec fn spec_method(&self) -> Seq<char> {
        "editMessageReplyMarkup"@
    }

    open spec fn spec_payload(&self) -> JsonV {
        JsonV::Obj(self.chat_or_inline_message.spec_fields() + self.spec_opt_fields())
    }

    open spec fn spec_output(v: JsonV) -> Option<Message> {
        spec_message_of(v)
    }

    fn method(&self) -> (r: &'static str) {
        "editMessageReplyMarkup"
    }

    fn payload(&self) -> (r: Json) {
        let mut pairs = self.chat_or_inline_message.fields();
        match &self.reply_markup {
            Some(kb) => {
                pairs.push((string_of("reply_markup"), kb.to_json()));
            },
            None => {},
        }
        proof {
            assert(jv_pairs(pairs@) =~= self.chat_or_inline_message.spec_fields()
                + self.spec_opt_fields());
        }
        Json::Obj(pairs)
    }

    fn decode_output(v: &Json) -> (r: Option<Message>) {
        Message::from_json(v)
    }
}

/// A freshly constructed request serializes to an object holding only the
/// target's required fields: no key for the unset optional field, and no
/// `null` among the present values.
pub proof fn lemma_fresh_payload_has_only_required_keys(r: &EditMessageReplyMarkup)
    requires
        r.reply_markup is None,
    ensures
        r.spec_payload() matches JsonV::Obj(pairs) && pairs
            == r.chat_or_inline_message.spec_fields() && !obj_has_key(pairs, "reply_markup"@)
            && obj_no_null(pairs),
{
    reveal_strlit("chat_id");
    reveal_strlit("message_id");
    reveal_strlit("inline_message_id");
    reveal_strlit("reply_markup");
    assert("chat_id"@.len() == 7);
    assert("message_id"@.len() == 10);
    assert("inline_message_id"@.len() == 17);
    assert("reply_markup"@.len() == 12);
    let pairs = r.chat_or_inline_message.spec_fields() + r.spec_opt_fields();
    assert(pairs =~= r.chat_or_inline_message.spec_fields());
    match r.chat_or_inline_message {
        ChatOrInlineMessage::Chat { chat_id, message_id } => {
            assert(pairs[0].0 != "reply_markup"@);
            assert(pairs[1].0 != "reply_markup"@);
            assert(!(pairs[0].1 is Null));
            assert(!(pairs[1].1 is Null));
        },
        ChatOrInlineMessage::Inline { inline_message_id } => {
            assert(pairs[0].0 != "reply_markup"@);
            assert(!(pairs[0].1 is Null));
        },
    }
}

/// After the optional setter was called with a keyboard, the payload holds
/// exactly one more pair: the `reply_markup` key with that keyboard's JSON
/// form, and looking the key up yields that form.
pub proof fn lemma_set_reply_markup_is_serialized(r: &EditMessageReplyMarkup, kb: InlineKeyboardMarkup)
    requires
        r.reply_markup == Some(kb),
    ensures
        r.spec_payload() matches JsonV::Obj(pairs) && pairs
            == r.chat_or_inline_message.spec_fields() + seq![("reply_markup"@, kb.spec_json())]
            && obj_has_key(pairs, "reply_markup"@) && obj_lookup(pairs, "reply_markup"@)
            == kb.spec_json(),
{
    reveal_strlit("chat_id");
    reveal_strlit("message_id");
    reveal_strlit("inline_message_id");
    reveal_strlit("reply_markup");
    assert("chat_id"@.len() == 7);
    assert("message_id"@.len() == 10);
    assert("inline_message_id"@.len() == 17);
    assert("reply_markup"@.len() == 12);
    let pairs = r.chat_or_inline_message.spec_fields() + r.spec_opt_fields();
    let k = pairs.len() - 1;
    assert(pairs[k].0 == "reply_markup"@);
    match r.chat_or_inline_message {
        ChatOrInlineMessage::Chat { chat_id, message_id } => {
            assert(pairs[0].0 != "reply_markup"@);
            assert(pairs[1].0 != "reply_markup"@);
        },
        ChatOrInlineMessage::Inline { inline_message_id } => {
            assert(pairs[0].0 != "reply_markup"@);
        },
    }
    lemma_lookup_at_first_match(pairs, "reply_markup"@, k);
}

/// Two independently constructed but field-identical requests serialize to
/// the same payload, name the same method, and - under the same token -
/// address the same endpoint.
pub proof fn lemma_identical_requests_serialize_identically(
    a: &EditMessageReplyMarkup,
    b: &EditMessageReplyMarkup,
)
    requires
        a.chat_or_inline_message == b.chat_or_inline_message,
        a.reply_markup == b.reply_markup,
    ensures
        a.spec_payload() == b.spec_payload(),
        a.spec_method() == b.spec_method(),
        a.bot.spec_token() == b.bot.spec_token() ==> spec_method_url(
            a.bot.spec_token(),
            a.spec_method(),
        ) == spec_method_url(b.bot.spec_token(), b.spec_method()),
{
}

} // verus!
