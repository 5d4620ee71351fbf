use vstd::prelude::*;

verus! {

/// A parsed JSON document: the shape that response decoding reads.
#[derive(Debug, PartialEq, Eq)]
pub enum JsonValue {
    Null,
    Bool(bool),
    /// A number without fraction or exponent.
    Integer(i128),
    /// A number with a fraction or an exponent; its value is not kept.
    Decimal,
    Str(String),
    Array(Vec<JsonValue>),
    /// Members in document order.
    Object(Vec<(String, JsonValue)>),
}

/// The value of the first member named `key`.
pub open spec fn member(entries: Seq<(String, JsonValue)>, key: Seq<char>) -> Option<JsonValue>
    decreases entries.len(),
{
    if entries.len() == 0 {
        None
    } else if entries[0].0@ == key {
        Some(entries[0].1)
    } else {
        member(entries.drop_first(), key)
    }
}

/// The member `key` of `v`, where `v` is an object.
pub open spec fn field(v: JsonValue, key: Seq<char>) -> Option<JsonValue> {
    match v {
        JsonValue::Object(entries) => member(entries@, key),
        _ => None,
    }
}

/// Looks up the first member named `key` of an object; `None` for any other value.
pub fn get_field<'a>(v: &'a JsonValue, key: &str) -> (r: Option<&'a JsonValue>)
    ensures
        match r {
            Some(x) => field(*v, key@) == Some(*x),
            None => field(*v, key@) is None,
        },
{
    match v {
        JsonValue::Object(entries) => {
            let k = key.to_owned();
            let mut i: usize = 0;
            assert(entries@.subrange(0, entries@.len() as int) =~= entries@);
            while i < entries.len()
                invariant
                    0 <= i <= entries@.len(),
                    k@ == key@,
                    field(*v, key@) == member(entries@, key@),
                    member(entries@, key@) == member(entries@.subrange(i as int, entries@.len() as int), key@),
                decreases entries@.len() - i,
            {
                let ghost rest = entries@.subrange(i as int, entries@.len() as int);
                assert(rest.drop_first() =~= entries@.subrange(i + 1, entries@.len() as int));
                assert(rest[0] == entries@[i as int]);
                let entry = &entries[i];
                let same: bool = entry.0.eq(&k);
                if same {
                    return Some(&entry.1);
                }
                i = i + 1;
            }
            assert(entries@.subrange(i as int, entries@.len() as int).len() == 0);
            None
        },
        _ => None,
    }
}

/// The string `v` holds, if it is a string.
pub open spec fn as_text(v: JsonValue) -> Option<Seq<char>> {
    match v {
        JsonValue::Str(s) => Some(s@),
        _ => None,
    }
}

/// The string held by member `key` of `v`.
pub open spec fn text_of(v: JsonValue, key: Seq<char>) -> Option<Seq<char>> {
    match field(v, key) {
        Some(x) => as_text(x),
        None => None,
    }
}

/// Reads member `key` of `v` as a string.
pub fn text_field(v: &JsonValue, key: &str) -> (r: Option<String>)
    ensures
        match r {
            Some(s) => text_of(*v, key@) == Some(s@),
            None => text_of(*v, key@) is None,
        },
{
    match get_field(v, key) {
        Some(JsonValue::Str(s)) => Some(s.clone()),
        _ => None,
    }
}

/// An optional string member: absent or `null` give `Some(None)`, a string
/// gives `Some(Some(..))`, anything else `None`.
pub open spec fn optional_text_of(v: JsonValue, key: Seq<char>) -> Option<Option<Seq<char>>> {
    match field(v, key) {
        None => Some(None),
        Some(JsonValue::Null) => Some(None),
        Some(JsonValue::Str(s)) => Some(Some(s@)),
        _ => None,
    }
}

/// The view of an optional string.
pub open spec fn opt_text(s: Option<String>) -> Option<Seq<char>> {
    match s {
        Some(t) => Some(t@),
        None => None,
    }
}

/// Reads member `key` of `v` as an optional string.
pub fn optional_text_field(v: &JsonValue, key: &str) -> (r: Option<Option<String>>)
    ensures
        match r {
            Some(s) => optional_text_of(*v, key@) == Some(opt_text(s)),
            None => optional_text_of(*v, key@) is None,
        },
{
    match get_field(v, key) {
        None => Some(None),
        Some(JsonValue::Null) => Some(None),
        Some(JsonValue::Str(s)) => Some(Some(s.clone())),
        _ => None,
    }
}

/// The integer member `key` of `v`, if it lies in `lo..=hi`.
pub open spec fn int_field(v: JsonValue, key: Seq<char>, lo: int, hi: int) -> Option<int> {
    match field(v, key) {
        Some(JsonValue::Integer(n)) => if lo <= n <= hi {
            Some(n as int)
        } else {
            None
        },
        _ => None,
    }
}

/// Reads member `key` of `v` as an integer in `lo..=hi`.
pub fn integer_field(v: &JsonValue, key: &str, lo: i128, hi: i128) -> (r: Option<i128>)
    ensures
        match r {
            Some(n) => int_field(*v, key@, lo as int, hi as int) == Some(n as int),
            None => int_field(*v, key@, lo as int, hi as int) is None,
        },
{
    match get_field(v, key) {
        Some(JsonValue::Integer(n)) => if lo <= *n && *n <= hi {
            Some(*n)
        } else {
            None
        },
        _ => None,
    }
}

} // verus!

verus! {

/// Lower-case hexadecimal digit of `n < 16`.
pub open spec fn hex_digit(n: u32) -> char {
    if n < 10 {
        (0x30 + n) as char
    } else {
        (0x61 + n - 10) as char
    }
}

/// How one character stands inside a JSON string literal: quote, backslash
/// and control characters are escaped, everything else is written as is.
pub open spec fn escape_char(c: char) -> Seq<char> {
    if c == '"' {
        seq!['\\', '"']
    } else if c == '\\' {
        seq!['\\', '\\']
    } else if c == '\u{8}' {
        seq!['\\', 'b']
    } else if c == '\t' {
        seq!['\\', 't']
    } else if c == '\n' {
        seq!['\\', 'n']
    } else if c == '\u{c}' {
        seq!['\\', 'f']
    } else if c == '\r' {
        seq!['\\', 'r']
    } else if (c as u32) < 0x20 {
        seq!['\\', 'u', '0', '0', hex_digit((c as u32) / 16), hex_digit((c as u32) % 16)]
    } else {
        seq![c]
    }
}

/// The escaped body of a JSON string literal holding `s`.
pub open spec fn escaped(s: Seq<char>) -> Seq<char>
    decreases s.len(),
{
    if s.len() == 0 {
        Seq::empty()
    } else {
        escaped(s.drop_last()) + escape_char(s.last())
    }
}

/// The JSON string literal that holds `s`.
pub open spec fn quoted(s: Seq<char>) -> Seq<char> {
    seq!['"'] + escaped(s) + seq!['"']
}

/// The value of a hexadecimal digit, either case.
pub open spec fn hex_value(d: char) -> Option<u32> {
    let n = d as u32;
    if 0x30 <= n <= 0x39 {
        Some((n - 0x30) as u32)
    } else if 0x61 <= n <= 0x66 {
        Some((n - 0x61 + 10) as u32)
    } else if 0x41 <= n <= 0x46 {
        Some((n - 0x41 + 10) as u32)
    } else {
        None
    }
}

/// The number written by four hexadecimal digits.
pub open spec fn hex4(t: Seq<char>) -> Option<u32> {
    match (hex_value(t[0]), hex_value(t[1]), hex_value(t[2]), hex_value(t[3])) {
        (Some(a), Some(b), Some(c), Some(d)) => Some((a * 4096 + b * 256 + c * 16 + d) as u32),
        _ => None,
    }
}

/// The character that a two-character escape `\e` stands for.
pub open spec fn simple_unescape(e: char) -> Option<char> {
    if e == '"' {
        Some('"')
    } else if e == '\\' {
        Some('\\')
    } else if e == '/' {
        Some('/')
    } else if e == 'b' {
        Some('\u{8}')
    } else if e == 'f' {
        Some('\u{c}')
    } else if e == 'n' {
        Some('\n')
    } else if e == 'r' {
        Some('\r')
    } else if e == 't' {
        Some('\t')
    } else {
        None
    }
}

/// Reads the rest of a JSON string literal whose opening quote is consumed:
/// the characters it holds and the text after its closing quote. Escapes
/// `\uXXXX` of surrogate halves are not read.
pub open spec fn read_body(t: Seq<char>) -> Option<(Seq<char>, Seq<char>)>
    decreases t.len(),
{
    if t.len() == 0 {
        None
    } else if t[0] == '"' {
        Some((Seq::empty(), t.drop_first()))
    } else if t[0] == '\\' {
        if t.len() >= 2 && simple_unescape(t[1]) is Some {
            match read_body(t.skip(2)) {
                Some((s, r)) => Some((seq![simple_unescape(t[1])->0] + s, r)),
                None => None,
            }
        } else if t.len() >= 6 && t[1] == 'u' {
            match hex4(t.subrange(2, 6)) {
                Some(n) => if n < 0xD800 || n >= 0xE000 {
                    match read_body(t.skip(6)) {
                        Some((s, r)) => Some((seq![n as char] + s, r)),
                        None => None,
                    }
                } else {
                    None
                },
                None => None,
            }
        } else {
            None
        }
    } else if (t[0] as u32) < 0x20 {
        None
    } else {
        match read_body(t.drop_first()) {
            Some((s, r)) => Some((seq![t[0]] + s, r)),
            None => None,
        }
    }
}

/// Reads a JSON string literal at the start of `t`: what it holds and the
/// text after it.
pub open spec fn read_string(t: Seq<char>) -> Option<(Seq<char>, Seq<char>)> {
    if t.len() > 0 && t[0] == '"' {
        read_body(t.drop_first())
    } else {
        None
    }
}

proof fn lemma_escaped_concat(a: Seq<char>, b: Seq<char>)
    ensures
        escaped(a + b) == escaped(a) + escaped(b),
    decreases b.len(),
{
    if b.len() == 0 {
        assert(a + b =~= a);
        assert(escaped(a) + escaped(b) =~= escaped(a));
    } else {
        lemma_escaped_concat(a, b.drop_last());
        assert((a + b).drop_last() =~= a + b.drop_last());
        assert((a + b).last() == b.last());
        assert(escaped(a) + escaped(b) =~= escaped(a) + escaped(b.drop_last()) + escape_char(
            b.last(),
        ));
    }
}

proof fn lemma_read_escaped_char(c: char, x: Seq<char>)
    ensures
        read_body(escape_char(c) + x) == match read_body(x) {
            Some((s, r)) => Some((seq![c] + s, r)),
            None => None::<(Seq<char>, Seq<char>)>,
        },
{
    let t = escape_char(c) + x;
    if c == '"' || c == '\\' || c == '\u{8}' || c == '\t' || c == '\n' || c == '\u{c}' || c
        == '\r' {
        assert(t.skip(2) =~= x);
        assert(t[0] == '\\');
    } else if (c as u32) < 0x20 {
        let k = c as u32;
        assert(t.skip(6) =~= x);
        assert(t[0] == '\\');
        assert(t[1] == 'u');
        assert(t.subrange(2, 6) =~= seq!['0', '0', hex_digit(k / 16), hex_digit(k % 16)]);
        assert(hex_value('0') == Some(0u32));
        assert(hex_value(hex_digit(k / 16)) == Some(k / 16));
        assert(hex_value(hex_digit(k % 16)) == Some(k % 16));
        assert(hex4(t.subrange(2, 6)) == Some(k));
        assert((k as char) as u32 == k);
        assert((k as char) == c);
    } else {
        assert(t.drop_first() =~= x);
    }
}

/// Reading back the literal of `s` yields `s` and the text that follows.
pub proof fn lemma_read_quoted(s: Seq<char>, rest: Seq<char>)
    ensures
        read_string(quoted(s) + rest) == Some((s, rest)),
{
    lemma_read_escaped_body(s, rest);
    assert((quoted(s) + rest).drop_first() =~= escaped(s) + seq!['"'] + rest);
}

proof fn lemma_read_escaped_body(s: Seq<char>, rest: Seq<char>)
    ensures
        read_body(escaped(s) + seq!['"'] + rest) == Some((s, rest)),
    decreases s.len(),
{
    if s.len() == 0 {
        let t = escaped(s) + seq!['"'] + rest;
        assert(t.drop_first() =~= rest);
    } else {
        let c = s[0];
        let tail = s.drop_first();
        assert(s =~= seq![c] + tail);
        lemma_escaped_concat(seq![c], tail);
        assert(seq![c].drop_last() =~= Seq::<char>::empty());
        assert(escaped(Seq::<char>::empty()) =~= Seq::<char>::empty());
        assert(seq![c].last() == c);
        assert(escaped(seq![c]) =~= escape_char(c));
        lemma_read_escaped_body(tail, rest);
        let x = escaped(tail) + seq!['"'] + rest;
        lemma_read_escaped_char(c, x);
        assert(escaped(s) + seq!['"'] + rest =~= escape_char(c) + x);
    }
}

/// Relies on `serde_json::to_string` on a `str`: the serializer writes the
/// literal with its escape table into a `Vec<u8>`, whose writes never fail.
#[verifier::external_body]
fn encode_str(s: &str) -> (r: Option<String>)
    ensures
        r is Some,
        r is Some ==> r->0@ == quoted(s@),
{
    serde_json::to_string(s).ok()
}

/// The JSON string literal that holds `s`.
pub fn json_string(s: &str) -> (r: String)
    ensures
        r@ == quoted(s@),
{
    match encode_str(s) {
        Some(t) => t,
        None => {
            proof {
                assert(false);
            }
            String::new()
        },
    }
}

} // verus!
