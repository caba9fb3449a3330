//! JSON values as this library writes and reads them: the value, its text,
//! and the members of an object by name.

use crate::text::{bool_text, bool_to_string, decimal, digit_char, i128_to_string};
use vstd::prelude::*;

verus! {

/// A JSON value as a mathematical object. The members of an object keep
/// their order; a number is an integer, or the text of one that is not.
pub enum JsonValue {
    Null,
    Bool(bool),
    Int(int),
    Real(Seq<char>),
    Text(Seq<char>),
    Array(Seq<JsonValue>),
    Object(Seq<(Seq<char>, JsonValue)>),
}

/// The members of an object: names and values, in order.
pub type Members = Seq<(Seq<char>, JsonValue)>;

/// The character of one hexadecimal digit, in lower case.
pub open spec fn hex_digit(d: int) -> char {
    if d < 10 {
        digit_char(d)
    } else if d == 10 {
        'a'
    } else if d == 11 {
        'b'
    } else if d == 12 {
        'c'
    } else if d == 13 {
        'd'
    } else if d == 14 {
        'e'
    } else {
        'f'
    }
}

/// One character as it stands inside a JSON string: the quotation mark, the
/// backslash and the control characters below the space are escaped, every
/// other character stands for itself.
pub open spec fn escaped_char(c: char) -> Seq<char> {
    if c == '"' {
        seq!['\\', '"']
    } else if c == '\\' {
        seq!['\\', '\\']
    } else if c == '\u{8}' {
        seq!['\\', 'b']
    } else if c == '\t' {
        seq!['\\', 't']
    } else if c == '\n' {
        seq!['\\', 'n']
    } else if c == '\u{c}' {
        seq!['\\', 'f']
    } else if c == '\r' {
        seq!['\\', 'r']
    } else if (c as int) < 32 {
        seq!['\\', 'u', '0', '0', hex_digit(c as int / 16), hex_digit(c as int % 16)]
    } else {
        seq![c]
    }
}

/// The characters of a text as they stand inside a JSON string.
pub open spec fn escaped_text(s: Seq<char>) -> Seq<char>
    decreases s.len(),
{
    if s.len() == 0 {
        Seq::empty()
    } else {
        escaped_text(s.drop_last()) + escaped_char(s.last())
    }
}

/// The text of a JSON string that holds `s`: `s` between quotation marks,
/// with its characters escaped.
pub open spec fn json_string(s: Seq<char>) -> Seq<char> {
    seq!['"'] + escaped_text(s) + seq!['"']
}

/// The value of the member called `name`: that of the last one, where the
/// name occurs more than once.
pub open spec fn field_in(members: Members, name: Seq<char>) -> Option<JsonValue>
    decreases members.len(),
{
    if members.len() == 0 {
        None
    } else if members.last().0 == name {
        Some(members.last().1)
    } else {
        field_in(members.drop_last(), name)
    }
}

/// The value of the member called `name`, if `j` is an object that has one.
pub open spec fn field(j: JsonValue, name: Seq<char>) -> Option<JsonValue> {
    match j {
        JsonValue::Object(members) => field_in(members, name),
        _ => None,
    }
}

/// The texts of the first `n` items, with commas between them.
pub open spec fn items_text(items: Seq<JsonValue>, n: nat) -> Seq<char>
    decreases items, n,
{
    if n == 0 || n > items.len() {
        Seq::empty()
    } else if n == 1 {
        json_text(items[0])
    } else {
        items_text(items, (n - 1) as nat) + seq![','] + json_text(items[n - 1])
    }
}

/// The texts of the first `n` members, each as its name, a colon and its
/// value, with commas between them.
pub open spec fn members_text(members: Members, n: nat) -> Seq<char>
    decreases members, n,
{
    if n == 0 || n > members.len() {
        Seq::empty()
    } else if n == 1 {
        json_string(members[0].0) + seq![':'] + json_text(members[0].1)
    } else {
        members_text(members, (n - 1) as nat) + seq![','] + json_string(members[n - 1].0) + seq![
            ':',
        ] + json_text(members[n - 1].1)
    }
}

/// The compact text of a JSON value: no white space, and the members of an
/// object in their order.
pub open spec fn json_text(j: JsonValue) -> Seq<char>
    decreases j,
{
    match j {
        JsonValue::Null => seq!['n', 'u', 'l', 'l'],
        JsonValue::Bool(b) => bool_text(b),
        JsonValue::Int(n) => decimal(n),
        JsonValue::Real(t) => t,
        JsonValue::Text(s) => json_string(s),
        JsonValue::Array(items) => seq!['['] + items_text(items, items.len()) + seq![']'],
        JsonValue::Object(members) => seq!['{'] + members_text(members, members.len()) + seq!['}'],
    }
}

/// Whether a character is a decimal digit.
pub open spec fn is_digit(c: char) -> bool {
    '0' <= c <= '9'
}

/// Whether a text is made of decimal digits, at least one.
pub open spec fn are_digits(s: Seq<char>) -> bool {
    s.len() > 0 && forall|i: int| 0 <= i < s.len() ==> is_digit(#[trigger] s[i])
}

/// Whether a text is the exponent of a number: `e` or `E`, a sign or none,
/// and digits.
pub open spec fn is_exponent(s: Seq<char>) -> bool {
    s.len() >= 2 && (s[0] == 'e' || s[0] == 'E') && (are_digits(s.skip(1)) || ((s[1] == '+'
        || s[1] == '-') && are_digits(s.skip(2))))
}

/// Whether a text is a number without a sign that ends its whole part at `a`
/// and its fraction at `b`: digits without a needless zero in front, then a
/// point and digits or nothing, then an exponent or nothing.
pub open spec fn splits_as_number(s: Seq<char>, a: int, b: int) -> bool {
    &&& 0 < a <= b <= s.len()
    &&& are_digits(s.take(a))
    &&& a == 1 || s[0] != '0'
    &&& a == b || (s[a] == '.' && are_digits(s.subrange(a + 1, b)))
    &&& b == s.len() || is_exponent(s.skip(b))
}

/// Whether a text is that of a number without a sign: a whole part, and a
/// fraction and an exponent where there are any.
pub open spec fn is_unsigned_number(s: Seq<char>) -> bool {
    exists|a: int, b: int| #[trigger] splits_as_number(s, a, b)
}

/// Whether a text is that of a JSON number: a minus sign or none, and a
/// number without a sign.
pub open spec fn is_number_text(t: Seq<char>) -> bool {
    if t.len() > 0 && t[0] == '-' {
        is_unsigned_number(t.skip(1))
    } else {
        is_unsigned_number(t)
    }
}

/// The text `0.0`, which stands where a measurement is absent, is that of a
/// number.
pub proof fn lemma_zero_is_number()
    ensures
        is_number_text("0.0"@),
{
    reveal_strlit("0.0");
    let s = "0.0"@;
    assert(s.take(1) =~= seq!['0']);
    assert(s.subrange(2, 3) =~= seq!['0']);
    assert(s[0] == '0');
    assert(splits_as_number(s, 1, 3));
}

/// Whether a JSON value can be written as JSON text: wherever it holds the
/// text of a number, the text is that of a JSON number.
pub open spec fn is_writable(j: JsonValue) -> bool
    decreases j,
{
    match j {
        JsonValue::Real(t) => is_number_text(t),
        JsonValue::Array(items) => forall|i: int|
            0 <= i < items.len() ==> is_writable(#[trigger] items[i]),
        JsonValue::Object(members) => forall|i: int|
            0 <= i < members.len() ==> is_writable((#[trigger] members[i]).1),
        _ => true,
    }
}

/// One member of a JSON object.
#[derive(Debug, PartialEq, Eq)]
pub struct Member {
    pub name: String,
    pub value: Json,
}

/// A JSON value. `Real` holds the text of a number that is not an integer
/// of 128 bits; the value is written as JSON only where that text is the
/// text of a JSON number.
#[derive(Debug, PartialEq, Eq)]
pub enum Json {
    Null,
    Bool(bool),
    Int(i128),
    Real(String),
    Text(String),
    Array(Vec<Json>),
    Object(Vec<Member>),
}

impl View for Json {
    type V = JsonValue;

    open spec fn view(&self) -> JsonValue
        decreases self,
    {
        match self {
            Json::Null => JsonValue::Null,
            Json::Bool(b) => JsonValue::Bool(*b),
            Json::Int(n) => JsonValue::Int(*n as int),
            Json::Real(t) => JsonValue::Real(t@),
            Json::Text(s) => JsonValue::Text(s@),
            Json::Array(items) => JsonValue::Array(
                Seq::new(
                    items@.len(),
                    |i: int|
                        if 0 <= i < items@.len() {
                            items@[i].view()
                        } else {
                            JsonValue::Null
                        },
                ),
            ),
            Json::Object(members) => JsonValue::Object(
                Seq::new(
                    members@.len(),
                    |i: int|
                        (
                            members@[i].name@,
                            if 0 <= i < members@.len() {
                                members@[i].value.view()
                            } else {
                                JsonValue::Null
                            },
                        ),
                ),
            ),
        }
    }
}

/// The values of a list of items.
pub open spec fn items_of(items: Seq<Json>) -> Seq<JsonValue> {
    Seq::new(items.len(), |i: int| items[i]@)
}

/// The names and values of a list of members.
pub open spec fn members_of(members: Seq<Member>) -> Members {
    Seq::new(members.len(), |i: int| (members[i].name@, members[i].value@))
}

/// The value of an array is that of its items, and the value of an object
/// that of its members.
pub proof fn lemma_view_of_parts(j: Json)
    ensures
        j matches Json::Array(items) ==> j@ == JsonValue::Array(items_of(items@)),
        j matches Json::Object(members) ==> j@ == JsonValue::Object(members_of(members@)),
{
    match j {
        Json::Array(items) => {
            assert(j@->Array_0 =~= items_of(items@));
        },
        Json::Object(members) => {
            assert forall|i: int| 0 <= i < members@.len() implies j@->Object_0[i] == members_of(
                members@,
            )[i] by {}
            assert(j@->Object_0 =~= members_of(members@));
        },
        _ => {},
    }
}

/// `serde_json::to_string` on a string slice: the text between quotation
/// marks, with `\"`, `\\`, `\b`, `\t`, `\n`, `\f`, `\r` for the characters that
/// have such an escape, `\u00` and two hexadecimal digits for the other
/// characters below the space, and every other character as it is. Writing a
/// string slice into memory cannot fail.
#[verifier::external_body]
fn escaped(s: &str) -> (text: String)
    ensures
        text@ == json_string(s@),
{
    serde_json::to_string(s).unwrap_or_default()
}

impl Json {
    /// An array of these items.
    pub fn array(items: Vec<Json>) -> (j: Json)
        ensures
            j@ == JsonValue::Array(items_of(items@)),
    {
        let j = Json::Array(items);
        proof {
            lemma_view_of_parts(j);
        }
        j
    }

    /// An object of these members.
    pub fn object(members: Vec<Member>) -> (j: Json)
        ensures
            j@ == JsonValue::Object(members_of(members@)),
    {
        let j = Json::Object(members);
        proof {
            lemma_view_of_parts(j);
        }
        j
    }

    /// The value of the member called `name`, if this is an object that has
    /// one; that of the last, where the name occurs more than once.
    pub fn get(&self, name: &str) -> (found: Option<&Json>)
        ensures
            found matches Some(j) ==> field(self@, name@) == Some(j@),
            found is None ==> field(self@, name@) is None,
    {
        match self {
            Json::Object(members) => {
                proof {
                    lemma_view_of_parts(*self);
                }
                let ghost all = members_of(members@);
                let wanted = String::from_str(name);
                let mut i: usize = members.len();
                assert(all.take(i as int) =~= all);
                while i > 0
                    invariant
                        i <= members.len(),
                        all == members_of(members@),
                        self@ == JsonValue::Object(all),
                        wanted@ == name@,
                        field_in(all, name@) == field_in(all.take(i as int), name@),
                    decreases i,
                {
                    proof {
                        assert(all.take(i as int).drop_last() =~= all.take(i - 1));
                        assert(all.take(i as int).last() == all[i - 1]);
                    }
                    i -= 1;
                    if members[i].name == wanted {
                        return Some(&members[i].value);
                    }
                }
                None
            },
            _ => None,
        }
    }

    /// Writes the compact text of this value behind what `out` holds.
    pub fn write(&self, out: &mut String)
        ensures
            final(out)@ == old(out)@ + json_text(self@),
        decreases self,
    {
        proof {
            reveal_strlit("null");
            reveal_strlit("[");
            reveal_strlit("]");
            reveal_strlit("{");
            reveal_strlit("}");
            lemma_view_of_parts(*self);
        }
        match self {
            Json::Null => {
                out.append("null");
                assert(final(out)@ =~= old(out)@ + json_text(self@));
            },
            Json::Bool(b) => {
                let t = bool_to_string(*b);
                out.append(t.as_str());
            },
            Json::Int(n) => {
                let t = i128_to_string(*n);
                out.append(t.as_str());
            },
            Json::Real(t) => {
                out.append(t.as_str());
            },
            Json::Text(s) => {
                let t = escaped(s.as_str());
                out.append(t.as_str());
            },
            Json::Array(items) => {
                out.append("[");
                let ghost all = items_of(items@);
                let mut i: usize = 0;
                while i < items.len()
                    invariant
                        i <= items.len(),
                        all == items_of(items@),
                        *self == Json::Array(*items),
                        out@ == old(out)@ + seq!['['] + items_text(all, i as nat),
                    decreases items.len() - i,
                {
                    if i > 0 {
                        out.append(",");
                    }
                    proof {
                        assert(self->Array_0 == *items);
                        assert(decreases_to!(*self => self->Array_0));
                        assert(decreases_to!(items => items[i as int]));
                    }
                    items[i].write(out);
                    i += 1;
                    proof {
                        reveal_strlit(",");
                        assert(all[i - 1] == items[i - 1]@);
                        assert(out@ =~= old(out)@ + seq!['['] + items_text(all, i as nat));
                    }
                }
                out.append("]");
                assert(final(out)@ =~= old(out)@ + json_text(self@));
            },
            Json::Object(members) => {
                out.append("{");
                let ghost all = members_of(members@);
                let mut i: usize = 0;
                while i < members.len()
                    invariant
                        i <= members.len(),
                        all == members_of(members@),
                        *self == Json::Object(*members),
                        out@ == old(out)@ + seq!['{'] + members_text(all, i as nat),
                    decreases members.len() - i,
                {
                    if i > 0 {
                        out.append(",");
                    }
                    let name = escaped(members[i].name.as_str());
                    out.append(name.as_str());
                    out.append(":");
                    proof {
                        assert(self->Object_0 == *members);
                        assert(decreases_to!(*self => self->Object_0));
                        assert(decreases_to!(members => members[i as int]));
                    }
                    members[i].value.write(out);
                    i += 1;
                    proof {
                        reveal_strlit(",");
                        reveal_strlit(":");
                        assert(all[i - 1] == (members[i - 1].name@, members[i - 1].value@));
                        assert(out@ =~= old(out)@ + seq!['{'] + members_text(all, i as nat));
                    }
                }
                out.append("}");
                assert(final(out)@ =~= old(out)@ + json_text(self@));
            },
        }
    }

    /// The compact text of this value.
    pub fn to_text(&self) -> (text: String)
        ensures
            text@ == json_text(self@),
    {
        let mut text = String::new();
        self.write(&mut text);
        assert(text@ =~= json_text(self@));
        text
    }
}

} // verus!
