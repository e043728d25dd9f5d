//! The payload vocabulary the core requests speak of.
//!
//! Each type states its own JSON form with a spec function and builds it
//! with a verified `to_json`; outputs are read back with an exact
//! `from_json`.  Optional fields are omitted from the JSON object entirely
//! when unset - never emitted as `null`.

use vstd::prelude::*;
use crate::json::{jv_pairs, jv_seq, obj_has_key, obj_lookup, obj_no_null, string_of, Json, JsonV};

verus! {

broadcast use {
    crate::json::lemma_jv_seq_len,
    crate::json::lemma_jv_seq_index,
    crate::json::lemma_jv_pairs_len,
    crate::json::lemma_jv_pairs_index,
};

/// A chat target: either a numeric chat identifier or a public channel or
/// supergroup username in the `@username` form.
pub enum ChatId {
    Id(i64),
    ChannelUsername(String),
}

impl ChatId {
    /// The JSON form: the number itself, or the username string.
    pub open spec fn spec_json(&self) -> JsonV {
        match self {
            ChatId::Id(n) => JsonV::Int(*n as int),
            ChatId::ChannelUsername(u) => JsonV::Str(u@),
        }
    }

    /// Builds the JSON form.
    pub fn to_json(&self) -> (r: Json)
        ensures
            r@ == self.spec_json(),
    {
        match self {
            ChatId::Id(n) => Json::Int(*n),
            ChatId::ChannelUsername(u) => Json::Str(u.clone()),
        }
    }
}

/// The logical target of a call that can edit either a message inside a
/// chat or an inline-mode message: exactly one shape at a time.  Its fields
/// serialize as sibling keys of the enclosing request object, never as a
/// nested object and never with a discriminant key.
pub enum ChatOrInlineMessage {
    Chat { chat_id: ChatId, message_id: i32 },
    Inline { inline_message_id: String },
}

impl ChatOrInlineMessage {
    /// The key/value pairs this target contributes to the enclosing
    /// request object.
    pub open spec fn spec_fields(&self) -> Seq<(Seq<char>, JsonV)> {
        match self {
            ChatOrInlineMessage::Chat { chat_id, message_id } => seq![
                ("chat_id"@, chat_id.spec_json()),
                ("message_id"@, JsonV::Int(*message_id as int)),
            ],
            ChatOrInlineMessage::Inline { inline_message_id } => seq![
                ("inline_message_id"@, JsonV::Str(inline_message_id@)),
            ],
        }
    }

    /// Builds the contributed pairs, in serialization order.
    pub fn fields(&self) -> (r: Vec<(String, Json)>)
        ensures
            jv_pairs(r@) == self.spec_fields(),
    {
        match self {
            ChatOrInlineMessage::Chat { chat_id, message_id } => {
                let mut v: Vec<(String, Json)> = Vec::new();
                v.push((string_of("chat_id"), chat_id.to_json()));
                v.push((string_of("message_id"), Json::Int(*message_id as i64)));
                proof {
                    assert(jv_pairs(v@) =~= self.spec_fields());
                }
                v
            },
            ChatOrInlineMessage::Inline { inline_message_id } => {
                let mut v: Vec<(String, Json)> = Vec::new();
                v.push((string_of("inline_message_id"), Json::Str(inline_message_id.clone())));
                proof {
                    assert(jv_pairs(v@) =~= self.spec_fields());
                }
                v
            },
        }
    }
}

/// A target's fields flatten to exactly its own shape's keys, as siblings
/// for the enclosing object: a chat target contributes `chat_id` and
/// `message_id` and never `inline_message_id`; an inline target
/// contributes only `inline_message_id`.
pub proof fn lemma_target_fields_are_exclusive(t: &ChatOrInlineMessage)
    ensures
        t matches ChatOrInlineMessage::Chat { .. } ==> ({
            let fields = t.spec_fields();
            fields.len() == 2 && fields[0].0 == "chat_id"@ && fields[1].0 == "message_id"@
                && !obj_has_key(fields, "inline_message_id"@)
        }),
        t matches ChatOrInlineMessage::Inline { .. } ==> ({
            let fields = t.spec_fields();
            fields.len() == 1 && fields[0].0 == "inline_message_id"@ && !obj_has_key(
                fields,
                "chat_id"@,
            ) && !obj_has_key(fields, "message_id"@)
        }),
{
    reveal_strlit("chat_id");
    reveal_strlit("message_id");
    reveal_strlit("inline_message_id");
    assert("chat_id"@.len() == 7);
    assert("message_id"@.len() == 10);
    assert("inline_message_id"@.len() == 17);
    let fields = t.spec_fields();
    match *t {
        ChatOrInlineMessage::Chat { chat_id, message_id } => {
            assert(fields[0].0 != "inline_message_id"@);
            assert(fields[1].0 != "inline_message_id"@);
        },
        ChatOrInlineMessage::Inline { inline_message_id } => {
            assert(fields[0].0 != "chat_id"@);
            assert(fields[0].0 != "message_id"@);
        },
    }
}

/// The pair an optional boolean field contributes to its object: nothing
/// at all when unset, never a `null`.
pub open spec fn opt_bool_field(name: Seq<char>, v: Option<bool>) -> Seq<(Seq<char>, JsonV)> {
    match v {
        Some(b) => seq![(name, JsonV::Bool(b))],
        None => Seq::empty(),
    }
}

/// The pair an optional string field contributes to its object: nothing at
/// all when unset, never a `null`.
pub open spec fn opt_str_field(name: Seq<char>, v: Option<String>) -> Seq<(Seq<char>, JsonV)> {
    match v {
        Some(s) => seq![(name, JsonV::Str(s@))],
        None => Seq::empty(),
    }
}

fn push_opt_bool(pairs: &mut Vec<(String, Json)>, name: &str, v: &Option<bool>)
    ensures
        jv_pairs(final(pairs)@) == jv_pairs(old(pairs)@) + opt_bool_field(name@, *v),
{
    match v {
        Some(b) => {
            pairs.push((string_of(name), Json::Bool(*b)));
            proof {
                assert(jv_pairs(pairs@) =~= jv_pairs(old(pairs)@) + opt_bool_field(name@, *v));
            }
        },
        None => {
            proof {
                assert(jv_pairs(pairs@) =~= jv_pairs(old(pairs)@) + opt_bool_field(name@, *v));
            }
        },
    }
}

fn push_opt_str(pairs: &mut Vec<(String, Json)>, name: &str, v: &Option<String>)
    ensures
        jv_pairs(final(pairs)@) == jv_pairs(old(pairs)@) + opt_str_field(name@, *v),
{
    match v {
        Some(s) => {
            pairs.push((string_of(name), Json::Str(s.clone())));
            proof {
                assert(jv_pairs(pairs@) =~= jv_pairs(old(pairs)@) + opt_str_field(name@, *v));
            }
        },
        None => {
            proof {
                assert(jv_pairs(pairs@) =~= jv_pairs(old(pairs)@) + opt_str_field(name@, *v));
            }
        },
    }
}

/// Default member permissions of a chat.  Every field is optional: an
/// unset field is omitted from the JSON object, which the remote side
/// reads as "leave unchanged / use its default".
pub struct ChatPermissions {
    pub can_send_messages: Option<bool>,
    pub can_send_media_messages: Option<bool>,
    pub can_send_polls: Option<bool>,
    pub can_send_other_messages: Option<bool>,
    pub can_add_web_page_previews: Option<bool>,
    pub can_change_info: Option<bool>,
    pub can_invite_users: Option<bool>,
    pub can_pin_messages: Option<bool>,
}

impl ChatPermissions {
    /// The pairs of the JSON object, in field order; set fields only.
    pub open spec fn spec_fields(&self) -> Seq<(Seq<char>, JsonV)> {
        opt_bool_field("can_send_messages"@, self.can_send_messages) + opt_bool_field(
            "can_send_media_messages"@,
            self.can_send_media_messages,
        ) + opt_bool_field("can_send_polls"@, self.can_send_polls) + opt_bool_field(
            "can_send_other_messages"@,
            self.can_send_other_messages,
        ) + opt_bool_field("can_add_web_page_previews"@, self.can_add_web_page_previews)
            + opt_bool_field("can_change_info"@, self.can_change_info) + opt_bool_field(
            "can_invite_users"@,
            self.can_invite_users,
        ) + opt_bool_field("can_pin_messages"@, self.can_pin_messages)
    }

    /// The JSON form: an object holding exactly the set fields.
    pub open spec fn spec_json(&self) -> JsonV {
        JsonV::Obj(self.spec_fields())
    }

    /// Permissions with every field unset.
    pub fn new() -> (r: ChatPermissions)
        ensures
            r.can_send_messages is None,
            r.can_send_media_messages is None,
            r.can_send_polls is None,
            r.can_send_other_messages is None,
            r.can_add_web_page_previews is None,
            r.can_change_info is None,
            r.can_invite_users is None,
            r.can_pin_messages is None,
    {
        ChatPermissions {
            can_send_messages: None,
            can_send_media_messages: None,
            can_send_polls: None,
            can_send_other_messages: None,
            can_add_web_page_previews: None,
            can_change_info: None,
            can_invite_users: None,
            can_pin_messages: None,
        }
    }

    /// Builds the JSON form.
    pub fn to_json(&self) -> (r: Json)
        ensures
            r@ == self.spec_json(),
    {
        let mut pairs: Vec<(String, Json)> = Vec::new();
        proof {
            assert(jv_pairs(pairs@) =~= Seq::<(Seq<char>, JsonV)>::empty());
        }
        push_opt_bool(&mut pairs, "can_send_messages", &self.can_send_messages);
        proof {
            assert(jv_pairs(pairs@) =~= opt_bool_field(
                "can_send_messages"@,
                self.can_send_messages,
            ));
        }
        push_opt_bool(&mut pairs, "can_send_media_messages", &self.can_send_media_messages);
        push_opt_bool(&mut pairs, "can_send_polls", &self.can_send_polls);
        push_opt_bool(&mut pairs, "can_send_other_messages", &self.can_send_other_messages);
        push_opt_bool(&mut pairs, "can_add_web_page_previews", &self.can_add_web_page_previews);
        push_opt_bool(&mut pairs, "can_change_info", &self.can_change_info);
        push_opt_bool(&mut pairs, "can_invite_users", &self.can_invite_users);
        push_opt_bool(&mut pairs, "can_pin_messages", &self.can_pin_messages);
        proof {
            assert(jv_pairs(pairs@) =~= self.spec_fields());
        }
        Json::Obj(pairs)
    }
}

/// The permissions object of a freshly made value is empty: no key for any
/// unset field, so everything is left unchanged server-side.
pub proof fn lemma_unset_permissions_serialize_to_empty_object(p: &ChatPermissions)
    requires
        p.can_send_messages is None,
        p.can_send_media_messages is None,
        p.can_send_polls is None,
        p.can_send_other_messages is None,
        p.can_add_web_page_previews is None,
        p.can_change_info is None,
        p.can_invite_users is None,
        p.can_pin_messages is None,
    ensures
        p.spec_fields() =~= Seq::<(Seq<char>, JsonV)>::empty(),
{
}

/// No value of a permissions object is ever JSON `null`: an unset field is
/// omitted instead.
pub proof fn lemma_permissions_never_serialize_null(p: &ChatPermissions)
    ensures
        obj_no_null(p.spec_fields()),
{
}

/// One button of an inline keyboard: its label, and the optional actions.
/// Unset actions are omitted from the JSON object.
pub struct InlineKeyboardButton {
    pub text: String,
    pub url: Option<String>,
    pub callback_data: Option<String>,
}

impl InlineKeyboardButton {
    /// The JSON form: the label, then the set actions, in field order.
    pub open spec fn spec_json(&self) -> JsonV {
        JsonV::Obj(
            seq![("text"@, JsonV::Str(self.text@))] + opt_str_field("url"@, self.url)
                + opt_str_field("callback_data"@, self.callback_data),
        )
    }

    /// A button with the given label and no action set.
    pub fn new(text: &str) -> (r: InlineKeyboardButton)
        ensures
            r.text@ == text@,
            r.url is None,
            r.callback_data is None,
    {
        InlineKeyboardButton { text: string_of(text), url: None, callback_data: None }
    }

    /// Builds the JSON form.
    pub fn to_json(&self) -> (r: Json)
        ensures
            r@ == self.spec_json(),
    {
        let mut pairs: Vec<(String, Json)> = Vec::new();
        pairs.push((string_of("text"), Json::Str(self.text.clone())));
        proof {
            assert(jv_pairs(pairs@) =~= seq![("text"@, JsonV::Str(self.text@))]);
        }
        push_opt_str(&mut pairs, "url", &self.url);
        push_opt_str(&mut pairs, "callback_data", &self.callback_data);
        proof {
            assert(jv_pairs(pairs@) =~= seq![("text"@, JsonV::Str(self.text@))] + opt_str_field(
                "url"@,
                self.url,
            ) + opt_str_field("callback_data"@, self.callback_data));
        }
        Json::Obj(pairs)
    }
}

/// An inline keyboard: rows of buttons, serialized as an object with one
/// `inline_keyboard` key holding an array of arrays.
pub struct InlineKeyboardMarkup {
    pub inline_keyboard: Vec<Vec<InlineKeyboardButton>>,
}

impl InlineKeyboardMarkup {
    /// The array-of-arrays of the buttons' JSON forms.
    pub open spec fn spec_rows_json(&self) -> Seq<JsonV> {
        self.inline_keyboard@.map_values(
            |row: Vec<InlineKeyboardButton>|
                JsonV::Arr(row@.map_values(|b: InlineKeyboardButton| b.spec_json())),
        )
    }

    /// The JSON form of the whole keyboard.
    pub open spec fn spec_json(&self) -> JsonV {
        JsonV::Obj(seq![("inline_keyboard"@, JsonV::Arr(self.spec_rows_json()))])
    }

    /// Builds the JSON form.
    #[verifier::loop_isolation(false)]
    pub fn to_json(&self) -> (r: Json)
        ensures
            r@ == self.spec_json(),
    {
        let mut rows: Vec<Json> = Vec::new();
        let n = self.inline_keyboard.len();
        let mut i: usize = 0;
        while i < n
            invariant
                i <= n,
                n == self.inline_keyboard.len(),
                rows@.len() == i,
                forall|k: int| 0 <= k < i ==> (#[trigger] rows@[k]).jv() == self.spec_rows_json()[k],
            decreases n - i,
        {
            let row = &self.inline_keyboard[i];
            let mut btns: Vec<Json> = Vec::new();
            let m = row.len();
            let mut j: usize = 0;
            while j < m
                invariant
                    j <= m,
                    m == row@.len(),
                    btns@.len() == j,
                    forall|k: int| 0 <= k < j ==> (#[trigger] btns@[k]).jv() == row@[k].spec_json(),
                decreases m - j,
            {
                let bj = row[j].to_json();
                btns.push(bj);
                proof {
                    assert(btns@[j as int].jv() == row@[j as int].spec_json());
                }
                j = j + 1;
            }
            proof {
                assert(jv_seq(btns@) =~= row@.map_values(|b: InlineKeyboardButton| b.spec_json()));
            }
            let ghost bmodel: Seq<JsonV> = jv_seq(btns@);
            rows.push(Json::Arr(btns));
            proof {
                assert(rows@[i as int].jv() == JsonV::Arr(bmodel));
                assert(self.spec_rows_json()[i as int] == JsonV::Arr(
                    row@.map_values(|b: InlineKeyboardButton| b.spec_json()),
                ));
            }
            i = i + 1;
        }
        proof {
            assert(jv_seq(rows@) =~= self.spec_rows_json());
        }
        let mut pairs: Vec<(String, Json)> = Vec::new();
        pairs.push((string_of("inline_keyboard"), Json::Arr(rows)));
        proof {
            assert(jv_pairs(pairs@) =~= seq![
                ("inline_keyboard"@, JsonV::Arr(self.spec_rows_json())),
            ]);
        }
        Json::Obj(pairs)
    }
}

/// The boolean-success sentinel some methods return: the remote side
/// answers with JSON `true`.
#[derive(PartialEq, Eq, Structural, Debug)]
pub struct True;

/// The sentinel read back from a result document: `Some(True)` exactly for
/// JSON `true`.
pub open spec fn spec_true_of(v: JsonV) -> Option<True> {
    if v == JsonV::Bool(true) {
        Some(True)
    } else {
        None
    }
}

impl True {
    /// Reads the sentinel back from a result document.
    pub fn from_json(v: &Json) -> (r: Option<True>)
        ensures
            r == spec_true_of(v@),
    {
        match v {
            Json::Bool(b) => if *b {
                Some(True)
            } else {
                None
            },
            _ => None,
        }
    }
}

/// A message as the edit methods return it.  Of the remote vocabulary only
/// the identifying field is kept here.
#[derive(PartialEq, Eq, Structural, Debug)]
pub struct Message {
    pub id: i64,
}

/// The message read back from a result document: an object with an integer
/// `message_id` member, and `None` for every other shape.
pub open spec fn spec_message_of(v: JsonV) -> Option<Message> {
    match v {
        JsonV::Obj(pairs) => if obj_has_key(pairs, "message_id"@) {
            match obj_lookup(pairs, "message_id"@) {
                JsonV::Int(n) => Some(Message { id: n as i64 }),
                _ => None,
            }
        } else {
            None
        },
        _ => None,
    }
}

impl Message {
    /// Reads a message back from a result document.
    pub fn from_json(v: &Json) -> (r: Option<Message>)
        ensures
            r == spec_message_of(v@),
    {
        match v.get("message_id") {
            Some(m) => match m {
                Json::Int(n) => Some(Message { id: *n }),
                _ => None,
            },
            None => None,
        }
    }
}

} // verus!
