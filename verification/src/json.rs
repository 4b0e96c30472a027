//! JSON text of butlerd request parameters and of response objects.
use vstd::prelude::*;

use crate::text::{int_text, push_char, str_eq};

verus! {

/// The lower-case hexadecimal digit for `d < 16`.
pub open spec fn hex_char(d: nat) -> char {
    if d < 10 {
        (d + 48) as char
    } else {
        (d + 87) as char
    }
}

/// How one character stands inside a JSON string literal: quote and backslash
/// take a backslash, the control characters with a short escape take it, the other
/// control characters below 0x20 are written `\u00xx`, all others stand as they are.
pub open spec fn json_escape(c: char) -> Seq<char> {
    let u = c as u32;
    if c == '"' {
        seq!['\\', '"']
    } else if c == '\\' {
        seq!['\\', '\\']
    } else if u == 0x08 {
        seq!['\\', 'b']
    } else if u == 0x09 {
        seq!['\\', 't']
    } else if u == 0x0A {
        seq!['\\', 'n']
    } else if u == 0x0C {
        seq!['\\', 'f']
    } else if u == 0x0D {
        seq!['\\', 'r']
    } else if u < 0x20 {
        seq!['\\', 'u', '0', '0', hex_char((u / 16) as nat), hex_char((u % 16) as nat)]
    } else {
        seq![c]
    }
}

/// The characters of `s`, each escaped by `json_escape`.
pub open spec fn json_escaped(s: Seq<char>) -> Seq<char>
    decreases s.len(),
{
    if s.len() == 0 {
        Seq::empty()
    } else {
        json_escape(s[0]) + json_escaped(s.skip(1))
    }
}

/// The JSON string literal for `s`.
pub open spec fn json_quoted(s: Seq<char>) -> Seq<char> {
    seq!['"'] + json_escaped(s) + seq!['"']
}

/// The value of a hexadecimal digit, of either case.
pub open spec fn hex_value(c: char) -> Option<int> {
    let u = c as u32;
    if 48 <= u <= 57 {
        Some(u - 48)
    } else if 97 <= u <= 102 {
        Some(u - 87)
    } else if 65 <= u <= 70 {
        Some(u - 55)
    } else {
        None
    }
}

/// The character a one-letter escape `\e` of JSON stands for.
pub open spec fn short_escape(e: char) -> Option<char> {
    if e == '"' {
        Some('"')
    } else if e == '\\' {
        Some('\\')
    } else if e == '/' {
        Some('/')
    } else if e == 'b' {
        Some('\u{8}')
    } else if e == 'f' {
        Some('\u{c}')
    } else if e == 'n' {
        Some('\n')
    } else if e == 'r' {
        Some('\r')
    } else if e == 't' {
        Some('\t')
    } else {
        None
    }
}

/// Reads the rest of a JSON string literal, after its opening quote, by JSON's grammar:
/// escapes stand for their characters, raw control characters are refused, and the first
/// unescaped quote closes the literal. Gives the characters read and the text after the
/// closing quote.
pub open spec fn read_string_body(t: Seq<char>) -> Option<(Seq<char>, Seq<char>)>
    decreases t.len(),
{
    if t.len() == 0 {
        None
    } else if t[0] == '"' {
        Some((Seq::empty(), t.skip(1)))
    } else if t[0] == '\\' {
        if t.len() < 2 {
            None
        } else if short_escape(t[1]) is Some {
            match read_string_body(t.skip(2)) {
                Some((d, rest)) => Some((seq![short_escape(t[1])->0] + d, rest)),
                None => None,
            }
        } else if t[1] == 'u' && t.len() >= 6 && hex_value(t[2]) is Some && hex_value(t[3]) is Some
            && hex_value(t[4]) is Some && hex_value(t[5]) is Some {
            let v = hex_value(t[2])->0 * 4096 + hex_value(t[3])->0 * 256 + hex_value(t[4])->0 * 16
                + hex_value(t[5])->0;
            if v < 0xD800 || 0xE000 <= v {
                match read_string_body(t.skip(6)) {
                    Some((d, rest)) => Some((seq![v as char] + d, rest)),
                    None => None,
                }
            } else {
                None
            }
        } else {
            None
        }
    } else if (t[0] as u32) < 0x20 {
        None
    } else {
        match read_string_body(t.skip(1)) {
            Some((d, rest)) => Some((seq![t[0]] + d, rest)),
            None => None,
        }
    }
}

/// Reads a JSON string literal at the start of `t`: the string it stands for, and the text
/// after it.
pub open spec fn read_string(t: Seq<char>) -> Option<(Seq<char>, Seq<char>)> {
    if t.len() > 0 && t[0] == '"' {
        read_string_body(t.skip(1))
    } else {
        None
    }
}

/// A character is the character of its code.
proof fn lemma_char_of_code(c: char, v: int)
    requires
        c as u32 == v,
    ensures
        c == v as char,
        v == 8 ==> c == '\u{8}',
        v == 9 ==> c == '\t',
        v == 10 ==> c == '\n',
        v == 12 ==> c == '\u{c}',
        v == 13 ==> c == '\r',
{
}

/// A JSON string literal made by `json_quoted` reads back, by JSON's grammar, as the
/// string it was made from, whatever follows it.
pub proof fn lemma_quoted_reads_back(s: Seq<char>, rest: Seq<char>)
    ensures
        read_string(json_quoted(s) + rest) == Some((s, rest)),
{
    lemma_escaped_reads_back(s, rest);
    let t = json_quoted(s) + rest;
    assert(t.skip(1) =~= json_escaped(s) + seq!['"'] + rest);
}

/// The escaped characters of `s`, a closing quote and any text read back as `s` and that text.
pub proof fn lemma_escaped_reads_back(s: Seq<char>, rest: Seq<char>)
    ensures
        read_string_body(json_escaped(s) + seq!['"'] + rest) == Some((s, rest)),
    decreases s.len(),
{
    let t = json_escaped(s) + seq!['"'] + rest;
    if s.len() == 0 {
        assert(t =~= seq!['"'] + rest);
        assert(t.skip(1) =~= rest);
    } else {
        let c = s[0];
        let u = c as u32;
        let tail = json_escaped(s.skip(1)) + seq!['"'] + rest;
        lemma_escaped_reads_back(s.skip(1), rest);
        let e = json_escape(c);
        assert(t =~= e + tail);
        assert(s =~= seq![c] + s.skip(1));
        if c == '"' || c == '\\' || u == 0x08 || u == 0x09 || u == 0x0A || u == 0x0C || u == 0x0D {
            assert(t.skip(2) =~= tail);
            assert(t[0] == '\\');
            assert(t[1] == e[1]);
            if u == 0x08 {
                lemma_char_of_code(c, 8);
            } else if u == 0x09 {
                lemma_char_of_code(c, 9);
            } else if u == 0x0A {
                lemma_char_of_code(c, 10);
            } else if u == 0x0C {
                lemma_char_of_code(c, 12);
            } else if u == 0x0D {
                lemma_char_of_code(c, 13);
            }
            assert(short_escape(t[1]) == Some(c));
        } else if u < 0x20 {
            let hi = (u / 16) as nat;
            let lo = (u % 16) as nat;
            assert(hex_char(hi) as u32 == hi + 48);
            assert(lo < 10 ==> hex_char(lo) as u32 == lo + 48);
            assert(lo >= 10 ==> hex_char(lo) as u32 == lo + 87);
            assert(hex_value(t[2]) == Some(0int));
            assert(hex_value(t[3]) == Some(0int));
            assert(hex_value(t[4]) == Some(hi as int));
            assert(hex_value(t[5]) == Some(lo as int));
            assert(short_escape(t[1]) is None);
            assert(hi * 16 + lo == u);
            assert(t.skip(6) =~= tail);
            lemma_char_of_code(c, u as int);
        } else {
            assert(t.skip(1) =~= tail);
        }
    }
}

/// The JSON literal of a boolean.
pub open spec fn bool_text(b: bool) -> Seq<char> {
    if b {
        "true"@
    } else {
        "false"@
    }
}

/// `parts` separated by commas.
pub open spec fn joined(parts: Seq<Seq<char>>) -> Seq<char>
    decreases parts.len(),
{
    if parts.len() == 0 {
        Seq::empty()
    } else if parts.len() == 1 {
        parts[0]
    } else {
        joined(parts.drop_last()) + seq![','] + parts.last()
    }
}

/// One member of a JSON object: the quoted key, a colon, and the value's text.
pub open spec fn member_text(field: (Seq<char>, Seq<char>)) -> Seq<char> {
    json_quoted(field.0) + seq![':'] + field.1
}

/// The compact JSON text of an object with these members, in this order.
pub open spec fn object_text(fields: Seq<(Seq<char>, Seq<char>)>) -> Seq<char> {
    seq!['{'] + joined(fields.map_values(|f: (Seq<char>, Seq<char>)| member_text(f))) + seq!['}']
}

/// The compact JSON text of an array whose items have these texts.
pub open spec fn array_text(items: Seq<Seq<char>>) -> Seq<char> {
    seq!['['] + joined(items) + seq![']']
}

/// The compact JSON text of an array of strings.
pub open spec fn string_array_text(items: Seq<Seq<char>>) -> Seq<char> {
    array_text(items.map_values(|s: Seq<char>| json_quoted(s)))
}

/// The value of the first member named `key`, if any.
pub open spec fn lookup(fields: Seq<(Seq<char>, Seq<char>)>, key: Seq<char>) -> Option<Seq<char>>
    decreases fields.len(),
{
    if fields.len() == 0 {
        None
    } else if fields[0].0 == key {
        Some(fields[0].1)
    } else {
        lookup(fields.skip(1), key)
    }
}

/// When `lookup` finds a value, it is that of the first member with the key.
pub proof fn lemma_lookup_found(fields: Seq<(Seq<char>, Seq<char>)>, key: Seq<char>)
    ensures
        lookup(fields, key) matches Some(v) ==> exists|i: int|
            0 <= i < fields.len() && fields[i].0 == key && fields[i].1 == v && forall|j: int|
                0 <= j < i ==> fields[j].0 != key,
        lookup(fields, key) is None ==> forall|j: int| 0 <= j < fields.len() ==> fields[j].0 != key,
    decreases fields.len(),
{
    if fields.len() > 0 {
        lemma_lookup_found(fields.skip(1), key);
        if fields[0].0 != key {
            if lookup(fields, key) is Some {
                let v = lookup(fields, key)->0;
                let i = choose|i: int|
                    0 <= i < fields.skip(1).len() && fields.skip(1)[i].0 == key && fields.skip(1)[i].1 == v
                        && forall|j: int| 0 <= j < i ==> fields.skip(1)[j].0 != key;
                assert(fields[i + 1] == fields.skip(1)[i]);
                assert forall|j: int| 0 <= j < i + 1 implies fields[j].0 != key by {
                    if j > 0 {
                        assert(fields[j] == fields.skip(1)[j - 1]);
                    }
                }
            } else {
                assert forall|j: int| 0 <= j < fields.len() implies fields[j].0 != key by {
                    if j > 0 {
                        assert(fields[j] == fields.skip(1)[j - 1]);
                    }
                }
            }
        }
    }
}

#[verifier::external_type_specification]
#[verifier::external_body]
pub struct ExJsonError(serde_json::Error);

/// `serde_json::to_string` on a string slice: writing into a byte vector cannot
/// fail, and the text is the string literal with the escapes of `json_escape`.
#[verifier::external_body]
fn serde_string_literal(s: &str) -> (r: Result<String, serde_json::Error>)
    ensures
        r is Ok,
        r matches Ok(t) ==> t@ == json_quoted(s@),
{
    serde_json::to_string(s)
}

/// `serde_json::to_string` on an `i64`: the decimal notation of the number.
#[verifier::external_body]
fn serde_integer(i: i64) -> (r: Result<String, serde_json::Error>)
    ensures
        r is Ok,
        r matches Ok(t) ==> t@ == int_text(i as int),
{
    serde_json::to_string(&i)
}

/// The JSON string literal for `s`.
pub fn json_str(s: &str) -> (r: String)
    ensures
        r@ == json_quoted(s@),
        read_string(r@) == Some((s@, Seq::<char>::empty())),
{
    proof {
        lemma_quoted_reads_back(s@, Seq::empty());
        assert(json_quoted(s@) + Seq::<char>::empty() =~= json_quoted(s@));
    }
    match serde_string_literal(s) {
        Ok(t) => t,
        Err(_) => {
            proof {
                assert(false);
            }
            String::new()
        },
    }
}

/// The JSON number for `i`.
pub fn json_int(i: i64) -> (r: String)
    ensures
        r@ == int_text(i as int),
{
    match serde_integer(i) {
        Ok(t) => t,
        Err(_) => {
            proof {
                assert(false);
            }
            String::new()
        },
    }
}

/// The JSON literal for `b`.
pub fn json_bool(b: bool) -> (r: String)
    ensures
        r@ == bool_text(b),
{
    if b {
        String::from_str("true")
    } else {
        String::from_str("false")
    }
}

/// `joined` over one more part.
pub proof fn lemma_joined_push(parts: Seq<Seq<char>>, i: int)
    requires
        0 <= i < parts.len(),
    ensures
        joined(parts.take(i + 1)) == if i == 0 {
            parts[0]
        } else {
            joined(parts.take(i)) + seq![','] + parts[i]
        },
{
    assert(parts.take(i + 1).drop_last() =~= parts.take(i));
}

/// Writes `parts` separated by commas between `open` and `close`.
fn write_joined(parts: &Vec<String>, open: char, close: char) -> (r: String)
    ensures
        r@ == seq![open] + joined(parts@.map_values(|p: String| p@)) + seq![close],
{
    let ghost ps = parts@.map_values(|p: String| p@);
    let mut out = String::new();
    push_char(&mut out, open);
    let mut i: usize = 0;
    assert(ps.take(0) =~= Seq::<Seq<char>>::empty());
    while i < parts.len()
        invariant
            ps == parts@.map_values(|p: String| p@),
            i <= parts@.len(),
            out@ == seq![open] + joined(ps.take(i as int)),
        decreases parts@.len() - i,
    {
        proof {
            lemma_joined_push(ps, i as int);
        }
        if i > 0 {
            push_char(&mut out, ',');
        }
        out.append(parts[i].as_str());
        i = i + 1;
    }
    assert(ps.take(parts@.len() as int) =~= ps);
    push_char(&mut out, close);
    out
}

/// The compact JSON text of an array of strings.
pub fn json_string_array(items: &Vec<String>) -> (r: String)
    ensures
        r@ == string_array_text(items@.map_values(|s: String| s@)),
{
    let mut quoted: Vec<String> = Vec::new();
    let mut i: usize = 0;
    while i < items.len()
        invariant
            i <= items@.len(),
            quoted@.len() == i,
            forall|k: int| 0 <= k < i ==> quoted@[k]@ == json_quoted(items@[k]@),
        decreases items@.len() - i,
    {
        quoted.push(json_str(items[i].as_str()));
        i = i + 1;
    }
    let r = write_joined(&quoted, '[', ']');
    assert(quoted@.map_values(|p: String| p@) =~= items@.map_values(|s: String| s@).map_values(
        |s: Seq<char>| json_quoted(s),
    ));
    r
}

/// The compact JSON text of an array whose items have the JSON texts `items`.
pub fn json_array(items: &Vec<String>) -> (r: String)
    ensures
        r@ == array_text(items@.map_values(|s: String| s@)),
{
    write_joined(items, '[', ']')
}

/// A JSON object as the list of its members, each a key and the JSON text of its value.
pub struct JsonObject {
    pub entries: Vec<(String, String)>,
}

impl View for JsonObject {
    type V = Seq<(Seq<char>, Seq<char>)>;

    open spec fn view(&self) -> Seq<(Seq<char>, Seq<char>)> {
        self.entries@.map_values(|e: (String, String)| (e.0@, e.1@))
    }
}

impl JsonObject {
    /// An object without members.
    pub fn new() -> (r: JsonObject)
        ensures
            r@ == Seq::<(Seq<char>, Seq<char>)>::empty(),
    {
        let r = JsonObject { entries: Vec::new() };
        assert(r@ =~= Seq::<(Seq<char>, Seq<char>)>::empty());
        r
    }

    /// Adds a member whose value has the JSON text `value` after the others.
    pub fn push(&mut self, key: &str, value: String)
        ensures
            final(self)@ == old(self)@.push((key@, value@)),
    {
        self.entries.push((String::from_str(key), value));
        assert(self@ =~= old(self)@.push((key@, value@)));
    }

    /// The compact JSON text of the object, members in their order.
    pub fn render(&self) -> (r: String)
        ensures
            r@ == object_text(self@),
    {
        let mut members: Vec<String> = Vec::new();
        let mut i: usize = 0;
        while i < self.entries.len()
            invariant
                i <= self.entries@.len(),
                members@.len() == i,
                forall|k: int| 0 <= k < i ==> members@[k]@ == member_text(self@[k]),
            decreases self.entries@.len() - i,
        {
            let mut m = json_str(self.entries[i].0.as_str());
            push_char(&mut m, ':');
            m.append(self.entries[i].1.as_str());
            members.push(m);
            i = i + 1;
        }
        let r = write_joined(&members, '{', '}');
        assert(members@.map_values(|p: String| p@) =~= self@.map_values(
            |f: (Seq<char>, Seq<char>)| member_text(f),
        ));
        r
    }

    /// The JSON text of the value of the first member named `key`, if any.
    pub fn get(&self, key: &str) -> (r: Option<String>)
        ensures
            r matches Some(v) ==> lookup(self@, key@) == Some(v@),
            r is None ==> lookup(self@, key@) is None,
    {
        let mut i: usize = 0;
        assert(self@.skip(0) =~= self@);
        while i < self.entries.len()
            invariant
                i <= self.entries@.len(),
                lookup(self@.skip(i as int), key@) == lookup(self@, key@),
            decreases self.entries@.len() - i,
        {
            assert(self@.skip(i as int).skip(1) =~= self@.skip(i + 1));
            if str_eq(self.entries[i].0.as_str(), key) {
                return Some(self.entries[i].1.clone());
            }
            i = i + 1;
        }
        None
    }
}

} // verus!
