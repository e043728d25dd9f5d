//! JSON documents and their exact textual form.
//!
//! [`Json`] is the wire currency of the whole crate: request payloads are
//! built as JSON objects and response envelopes are read as JSON objects.
//! The mathematical model of a document is [`JsonV`]; [`to_text`] emits the
//! canonical text of a document, character for character, as stated by
//! [`ser`].  Numbers are signed 64-bit integers - the API's identifiers all
//! fit - and strings are emitted with `"` and `\` escaped.

use vstd::prelude::*;
use vstd::string::StrSliceExecFns;

verus! {

/// A JSON document.
///
/// An object is an ordered list of key/value pairs; the order is the order
/// in which the pairs are serialized.
pub enum Json {
    Null,
    Bool(bool),
    Int(i64),
    Str(String),
    Arr(Vec<Json>),
    Obj(Vec<(String, Json)>),
}

/// The mathematical model of a [`Json`] document.
pub enum JsonV {
    Null,
    Bool(bool),
    Int(int),
    Str(Seq<char>),
    Arr(Seq<JsonV>),
    Obj(Seq<(Seq<char>, JsonV)>),
}

impl Json {
    /// The model of this document.
    pub open spec fn jv(self) -> JsonV
        decreases self,
    {
        match self {
            Json::Null => JsonV::Null,
            Json::Bool(b) => JsonV::Bool(b),
            Json::Int(n) => JsonV::Int(n as int),
            Json::Str(s) => JsonV::Str(s@),
            Json::Arr(_) => JsonV::Arr(jv_seq(self->Arr_0@)),
            Json::Obj(_) => JsonV::Obj(jv_pairs(self->Obj_0@)),
        }
    }
}

impl View for Json {
    type V = JsonV;

    open spec fn view(&self) -> JsonV {
        (*self).jv()
    }
}

/// The models of a sequence of documents, elementwise.
pub open spec fn jv_seq(s: Seq<Json>) -> Seq<JsonV>
    decreases s,
{
    if s.len() == 0 {
        Seq::empty()
    } else {
        jv_seq(s.subrange(0, s.len() - 1)) + seq![s[s.len() - 1].jv()]
    }
}

/// The models of a sequence of key/value pairs, elementwise.
pub open spec fn jv_pairs(s: Seq<(String, Json)>) -> Seq<(Seq<char>, JsonV)>
    decreases s,
{
    if s.len() == 0 {
        Seq::empty()
    } else {
        jv_pairs(s.subrange(0, s.len() - 1)) + seq![(s[s.len() - 1].0@, s[s.len() - 1].1.jv())]
    }
}

/// A sequence of documents and its model have the same length.
pub broadcast proof fn lemma_jv_seq_len(s: Seq<Json>)
    ensures
        (#[trigger] jv_seq(s)).len() == s.len(),
    decreases s.len(),
{
    if s.len() > 0 {
        lemma_jv_seq_len(s.subrange(0, s.len() - 1));
    }
}

/// The model of a sequence of documents is the model of each element.
pub broadcast proof fn lemma_jv_seq_index(s: Seq<Json>, i: int)
    requires
        0 <= i < s.len(),
    ensures
        #[trigger] jv_seq(s)[i] == s[i].jv(),
    decreases s.len(),
{
    let head = s.subrange(0, s.len() - 1);
    lemma_jv_seq_len(head);
    if i < s.len() - 1 {
        lemma_jv_seq_index(head, i);
        assert(head[i] == s[i]);
    }
}

/// A sequence of pairs and its model have the same length.
pub broadcast proof fn lemma_jv_pairs_len(s: Seq<(String, Json)>)
    ensures
        (#[trigger] jv_pairs(s)).len() == s.len(),
    decreases s.len(),
{
    if s.len() > 0 {
        lemma_jv_pairs_len(s.subrange(0, s.len() - 1));
    }
}

/// The model of a sequence of pairs is the model of each pair: the key's
/// characters and the value's model.
pub broadcast proof fn lemma_jv_pairs_index(s: Seq<(String, Json)>, i: int)
    requires
        0 <= i < s.len(),
    ensures
        #[trigger] jv_pairs(s)[i] == (s[i].0@, s[i].1.jv()),
    decreases s.len(),
{
    let head = s.subrange(0, s.len() - 1);
    lemma_jv_pairs_len(head);
    if i < s.len() - 1 {
        lemma_jv_pairs_index(head, i);
        assert(head[i] == s[i]);
    }
}

/// The decimal digit character of `d`, for `d < 10`.
pub open spec fn digit_char(d: nat) -> char {
    if d == 0 {
        '0'
    } else if d == 1 {
        '1'
    } else if d == 2 {
        '2'
    } else if d == 3 {
        '3'
    } else if d == 4 {
        '4'
    } else if d == 5 {
        '5'
    } else if d == 6 {
        '6'
    } else if d == 7 {
        '7'
    } else if d == 8 {
        '8'
    } else {
        '9'
    }
}

/// The decimal digits of `n`, most significant first, with no sign and no
/// leading zero (a single `0` for zero).
pub open spec fn dec_u(n: nat) -> Seq<char>
    decreases n,
{
    if n < 10 {
        seq![digit_char(n)]
    } else {
        dec_u(n / 10) + seq![digit_char(n % 10)]
    }
}

/// The decimal form of `n`: a leading `-` for negative values.
pub open spec fn ser_int(n: int) -> Seq<char> {
    if n < 0 {
        seq!['-'] + dec_u((-n) as nat)
    } else {
        dec_u(n as nat)
    }
}

/// The escaped form of one string character: `"` and `\` get a backslash,
/// every other character stands for itself.
pub open spec fn esc1(c: char) -> Seq<char> {
    if c == '"' {
        seq!['\\', '"']
    } else if c == '\\' {
        seq!['\\', '\\']
    } else {
        seq![c]
    }
}

/// The escaped form of a whole string body.
pub open spec fn esc(s: Seq<char>) -> Seq<char>
    decreases s.len(),
{
    if s.len() == 0 {
        Seq::empty()
    } else {
        esc(s.subrange(0, s.len() - 1)) + esc1(s[s.len() - 1])
    }
}

/// A JSON string literal: the escaped body between double quotes.
pub open spec fn str_lit(s: Seq<char>) -> Seq<char> {
    seq!['"'] + esc(s) + seq!['"']
}

/// The canonical text of a document: no whitespace, object keys in pair
/// order, `"` and `\` escaped in strings.
pub open spec fn ser(v: JsonV) -> Seq<char>
    decreases v,
{
    match v {
        JsonV::Null => seq!['n', 'u', 'l', 'l'],
        JsonV::Bool(b) => if b {
            seq!['t', 'r', 'u', 'e']
        } else {
            seq!['f', 'a', 'l', 's', 'e']
        },
        JsonV::Int(n) => ser_int(n),
        JsonV::Str(s) => str_lit(s),
        JsonV::Arr(elems) => seq!['['] + ser_elems(elems) + seq![']'],
        JsonV::Obj(pairs) => seq!['{'] + ser_pairs(pairs) + seq!['}'],
    }
}

/// The comma-separated serializations of the elements of an array.
pub open spec fn ser_elems(elems: Seq<JsonV>) -> Seq<char>
    decreases elems,
{
    if elems.len() == 0 {
        Seq::empty()
    } else if elems.len() == 1 {
        ser(elems[0])
    } else {
        ser_elems(elems.subrange(0, elems.len() - 1)) + seq![','] + ser(elems[elems.len() - 1])
    }
}

/// One object member: the quoted, escaped key, a colon, and the value.
pub open spec fn ser_pair(p: (Seq<char>, JsonV)) -> Seq<char>
    decreases p,
{
    str_lit(p.0) + seq![':'] + ser(p.1)
}

/// The comma-separated serializations of the members of an object.
pub open spec fn ser_pairs(pairs: Seq<(Seq<char>, JsonV)>) -> Seq<char>
    decreases pairs,
{
    if pairs.len() == 0 {
        Seq::empty()
    } else if pairs.len() == 1 {
        ser_pair(pairs[0])
    } else {
        ser_pairs(pairs.subrange(0, pairs.len() - 1)) + seq![','] + ser_pair(
            pairs[pairs.len() - 1],
        )
    }
}

/// Whether some pair of `pairs` has the key `k`.
pub open spec fn obj_has_key(pairs: Seq<(Seq<char>, JsonV)>, k: Seq<char>) -> bool {
    exists|i: int| 0 <= i < pairs.len() && (#[trigger] pairs[i]).0 == k
}

/// The value of the first pair of `pairs` whose key is `k` (`Null` when no
/// pair has it; meaningful only under [`obj_has_key`]).
pub open spec fn obj_lookup(pairs: Seq<(Seq<char>, JsonV)>, k: Seq<char>) -> JsonV
    decreases pairs.len(),
{
    if pairs.len() == 0 {
        JsonV::Null
    } else if pairs[0].0 == k {
        pairs[0].1
    } else {
        obj_lookup(pairs.subrange(1, pairs.len() as int), k)
    }
}

/// Whether no value of `pairs` is JSON `null`.
pub open spec fn obj_no_null(pairs: Seq<(Seq<char>, JsonV)>) -> bool {
    forall|i: int| 0 <= i < pairs.len() ==> !((#[trigger] pairs[i]).1 is Null)
}

/// Relies on `String::push`: appends the given character to the end of the
/// string.
#[verifier::external_body]
fn push_char(out: &mut String, c: char)
    ensures
        final(out)@ == old(out)@ + seq![c],
{
    out.push(c);
}

/// Builds an owned `String` holding exactly the characters of `s`.
pub fn string_of(s: &str) -> (r: String)
    ensures
        r@ == s@,
{
    s.to_owned()
}

fn digit_of(d: u64) -> (c: char)
    requires
        d < 10,
    ensures
        c == digit_char(d as nat),
{
    if d == 0 {
        '0'
    } else if d == 1 {
        '1'
    } else if d == 2 {
        '2'
    } else if d == 3 {
        '3'
    } else if d == 4 {
        '4'
    } else if d == 5 {
        '5'
    } else if d == 6 {
        '6'
    } else if d == 7 {
        '7'
    } else if d == 8 {
        '8'
    } else {
        '9'
    }
}

fn write_u64(out: &mut String, n: u64)
    ensures
        final(out)@ == old(out)@ + dec_u(n as nat),
    decreases n,
{
    if n < 10 {
        push_char(out, digit_of(n));
    } else {
        write_u64(out, n / 10);
        push_char(out, digit_of(n % 10));
        proof {
            assert(out@ =~= old(out)@ + dec_u(n as nat));
        }
    }
}

fn write_i64(out: &mut String, n: i64)
    ensures
        final(out)@ == old(out)@ + ser_int(n as int),
{
    if n < 0 {
        push_char(out, '-');
        let m: u64 = (-(n as i128)) as u64;
        write_u64(out, m);
        proof {
            assert(out@ =~= old(out)@ + ser_int(n as int));
        }
    } else {
        write_u64(out, n as u64);
    }
}

#[verifier::loop_isolation(false)]
fn write_escaped(out: &mut String, s: &str)
    ensures
        final(out)@ == old(out)@ + esc(s@),
{
    let n = s.unicode_len();
    let mut i: usize = 0;
    while i < n
        invariant
            i <= n,
            n == s@.len(),
            out@ == old(out)@ + esc(s@.subrange(0, i as int)),
        decreases n - i,
    {
        let c = s.get_char(i);
        if c == '"' {
            push_char(out, '\\');
            push_char(out, '"');
        } else if c == '\\' {
            push_char(out, '\\');
            push_char(out, '\\');
        } else {
            push_char(out, c);
        }
        proof {
            let t = s@.subrange(0, i + 1);
            assert(t.subrange(0, t.len() - 1) =~= s@.subrange(0, i as int));
            assert(out@ =~= old(out)@ + esc(s@.subrange(0, i + 1)));
        }
        i = i + 1;
    }
    proof {
        assert(s@.subrange(0, n as int) =~= s@);
    }
}

fn write_str_lit(out: &mut String, s: &str)
    ensures
        final(out)@ == old(out)@ + str_lit(s@),
{
    push_char(out, '"');
    write_escaped(out, s);
    push_char(out, '"');
    proof {
        assert(out@ =~= old(out)@ + str_lit(s@));
    }
}

#[verifier::loop_isolation(false)]
fn write_json(out: &mut String, j: &Json)
    ensures
        final(out)@ == old(out)@ + ser(j@),
    decreases *j,
{
    match j {
        Json::Null => {
            push_char(out, 'n');
            push_char(out, 'u');
            push_char(out, 'l');
            push_char(out, 'l');
            proof {
                assert(out@ =~= old(out)@ + ser(j@));
            }
        },
        Json::Bool(b) => {
            if *b {
                push_char(out, 't');
                push_char(out, 'r');
                push_char(out, 'u');
                push_char(out, 'e');
            } else {
                push_char(out, 'f');
                push_char(out, 'a');
                push_char(out, 'l');
                push_char(out, 's');
                push_char(out, 'e');
            }
            proof {
                assert(out@ =~= old(out)@ + ser(j@));
            }
        },
        Json::Int(n) => {
            write_i64(out, *n);
        },
        Json::Str(s) => {
            write_str_lit(out, s.as_str());
        },
        Json::Arr(elems) => {
            let ghost model: Seq<JsonV> = jv_seq(elems@);
            proof {
                lemma_jv_seq_len(elems@);
            }
            push_char(out, '[');
            let n = elems.len();
            let mut i: usize = 0;
            while i < n
                invariant
                    i <= n,
                    n == elems.len(),
                    model == jv_seq(elems@),
                    model.len() == n,
                    out@ == old(out)@ + seq!['['] + ser_elems(model.subrange(0, i as int)),
                decreases n - i,
            {
                if i > 0 {
                    push_char(out, ',');
                }
                proof {
                    assert(*elems == (*j)->Arr_0);
                    assert(decreases_to!(*j => (*j)->Arr_0));
                    assert(decreases_to!((*j)->Arr_0 => (*j)->Arr_0@));
                    assert(decreases_to!((*j)->Arr_0@ => (*j)->Arr_0@[i as int]));
                    assert(decreases_to!(*j => elems@[i as int]));
                }
                write_json(out, &elems[i]);
                proof {
                    let t = model.subrange(0, i + 1);
                    assert(t[t.len() - 1] == model[i as int]);
                    assert(t.subrange(0, t.len() - 1) =~= model.subrange(0, i as int));
                    lemma_jv_seq_index(elems@, i as int);
                    assert(out@ =~= old(out)@ + seq!['['] + ser_elems(model.subrange(0, i + 1)));
                }
                i = i + 1;
            }
            push_char(out, ']');
            proof {
                assert(model.subrange(0, n as int) =~= model);
                assert(j@ == JsonV::Arr(model));
                assert(out@ =~= old(out)@ + ser(j@));
            }
        },
        Json::Obj(pairs) => {
            let ghost model: Seq<(Seq<char>, JsonV)> = jv_pairs(pairs@);
            proof {
                lemma_jv_pairs_len(pairs@);
            }
            push_char(out, '{');
            let n = pairs.len();
            let mut i: usize = 0;
            while i < n
                invariant
                    i <= n,
                    n == pairs.len(),
                    model == jv_pairs(pairs@),
                    model.len() == n,
                    out@ == old(out)@ + seq!['{'] + ser_pairs(model.subrange(0, i as int)),
                decreases n - i,
            {
                if i > 0 {
                    push_char(out, ',');
                }
                write_str_lit(out, pairs[i].0.as_str());
                push_char(out, ':');
                proof {
                    assert(*pairs == (*j)->Obj_0);
                    assert(decreases_to!(*j => (*j)->Obj_0));
                    assert(decreases_to!((*j)->Obj_0 => (*j)->Obj_0@));
                    assert(decreases_to!((*j)->Obj_0@ => (*j)->Obj_0@[i as int]));
                    assert(decreases_to!((*j)->Obj_0@[i as int] => (*j)->Obj_0@[i as int].1));
                    assert(decreases_to!(*j => pairs@[i as int].1));
                }
                write_json(out, &pairs[i].1);
                proof {
                    let t = model.subrange(0, i + 1);
                    assert(t[t.len() - 1] == model[i as int]);
                    assert(t.subrange(0, t.len() - 1) =~= model.subrange(0, i as int));
                    lemma_jv_pairs_index(pairs@, i as int);
                    assert(model[i as int] == (pairs@[i as int].0@, pairs@[i as int].1.jv()));
                    assert(ser_pair(model[i as int]) == str_lit(pairs@[i as int].0@) + seq![':']
                        + ser(pairs@[i as int].1.jv()));
                    if i == 0 {
                        assert(ser_pairs(t) == ser_pair(model[0]));
                    } else {
                        assert(ser_pairs(t) == ser_pairs(model.subrange(0, i as int)) + seq![',']
                            + ser_pair(model[i as int]));
                    }
                    assert(out@ =~= old(out)@ + seq!['{'] + ser_pairs(model.subrange(0, i + 1)));
                }
                i = i + 1;
            }
            push_char(out, '}');
            proof {
                assert(model.subrange(0, n as int) =~= model);
                assert(j@ == JsonV::Obj(model));
                assert(out@ =~= old(out)@ + ser(j@));
            }
        },
    }
}

/// The canonical text of `j`: exactly [`ser`] of its model.
pub fn to_text(j: &Json) -> (r: String)
    ensures
        r@ == ser(j@),
{
    let mut out = String::new();
    write_json(&mut out, j);
    out
}

/// Character-for-character equality of two string slices.
#[verifier::loop_isolation(false)]
pub fn str_eq(a: &str, b: &str) -> (r: bool)
    ensures
        r == (a@ == b@),
{
    let na = a.unicode_len();
    let nb = b.unicode_len();
    if na != nb {
        return false;
    }
    let mut i: usize = 0;
    while i < na
        invariant
            i <= na,
            na == a@.len(),
            nb == b@.len(),
            na == nb,
            forall|k: int| 0 <= k < i ==> a@[k] == b@[k],
        decreases na - i,
    {
        if a.get_char(i) != b.get_char(i) {
            return false;
        }
        i = i + 1;
    }
    proof {
        assert(a@ =~= b@);
    }
    true
}

/// The first pair with key `k` decides the lookup: everything before it
/// missed.
pub proof fn lemma_lookup_at_first_match(pairs: Seq<(Seq<char>, JsonV)>, k: Seq<char>, i: int)
    requires
        0 <= i < pairs.len(),
        forall|m: int| 0 <= m < i ==> (#[trigger] pairs[m]).0 != k,
        pairs[i].0 == k,
    ensures
        obj_lookup(pairs, k) == pairs[i].1,
    decreases i,
{
    if i > 0 {
        let rest = pairs.subrange(1, pairs.len() as int);
        assert(rest[i - 1] == pairs[i]);
        assert(forall|m: int| 0 <= m < i - 1 ==> (#[trigger] rest[m]).0 == pairs[m + 1].0);
        lemma_lookup_at_first_match(rest, k, i - 1);
    }
}

impl Json {
    /// The value of the first member named `key`, when this document is an
    /// object that has one.
    #[verifier::loop_isolation(false)]
    pub fn get<'a>(&'a self, key: &str) -> (r: Option<&'a Json>)
        ensures
            match r {
                Option::Some(v) => self@ matches JsonV::Obj(pairs) && obj_has_key(pairs, key@)
                    && v@ == obj_lookup(pairs, key@),
                Option::None => !(self@ matches JsonV::Obj(pairs) && obj_has_key(pairs, key@)),
            },
    {
        match self {
            Json::Obj(pairs) => {
                let ghost model: Seq<(Seq<char>, JsonV)> = jv_pairs(pairs@);
                proof {
                    lemma_jv_pairs_len(pairs@);
                }
                let n = pairs.len();
                let mut i: usize = 0;
                while i < n
                    invariant
                        i <= n,
                        n == pairs.len(),
                        model == jv_pairs(pairs@),
                        model.len() == n,
                        forall|m: int| 0 <= m < i ==> (#[trigger] model[m]).0 != key@,
                    decreases n - i,
                {
                    proof {
                        lemma_jv_pairs_index(pairs@, i as int);
                    }
                    if str_eq(pairs[i].0.as_str(), key) {
                        proof {
                            assert(model[i as int].0 == key@);
                            lemma_lookup_at_first_match(model, key@, i as int);
                        }
                        return Some(&pairs[i].1);
                    }
                    i = i + 1;
                }
                None
            },
            _ => None,
        }
    }
}

} // verus!
