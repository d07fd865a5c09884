//! JSON string literals: quoting and escaping of text.
use vstd::prelude::*;
use crate::text::{chars_of, hex_digit, nibble_char, push_char, signed_decimal};

verus! {

/// How one character is written inside a JSON string literal: quote and
/// backslash are escaped, the control characters below U+0020 are written as
/// `\b`, `\t`, `\n`, `\f`, `\r` or `\u00XX` (lower-case hex), and every other
/// character stands for itself.
pub open spec fn escape_char(c: char) -> Seq<char> {
    if c == '"' {
        seq!['\\', '"']
    } else if c == '\\' {
        seq!['\\', '\\']
    } else if c == '\u{8}' {
        seq!['\\', 'b']
    } else if c == '\t' {
        seq!['\\', 't']
    } else if c == '\n' {
        seq!['\\', 'n']
    } else if c == '\u{c}' {
        seq!['\\', 'f']
    } else if c == '\r' {
        seq!['\\', 'r']
    } else if (c as u32) < 32 {
        seq!['\\', 'u', '0', '0', hex_digit((c as u32) as int / 16), hex_digit((c as u32) as int % 16)]
    } else {
        seq![c]
    }
}

/// The escaped form of `s`, character by character.
pub open spec fn escape(s: Seq<char>) -> Seq<char>
    decreases s.len(),
{
    if s.len() == 0 {
        Seq::empty()
    } else {
        escape(s.drop_last()) + escape_char(s.last())
    }
}

/// `s` as a JSON string literal, in double quotes.
pub open spec fn json_string(s: Seq<char>) -> Seq<char> {
    seq!['"'] + escape(s) + seq!['"']
}

/// Appends the escaped form of `c`.
fn push_escaped_char(out: &mut String, c: char)
    ensures
        final(out)@ == old(out)@ + escape_char(c),
{
    let ghost before = out@;
    if c == '"' {
        push_char(out, '\\');
        push_char(out, '"');
    } else if c == '\\' {
        push_char(out, '\\');
        push_char(out, '\\');
    } else if c == '\u{8}' {
        push_char(out, '\\');
        push_char(out, 'b');
    } else if c == '\t' {
        push_char(out, '\\');
        push_char(out, 't');
    } else if c == '\n' {
        push_char(out, '\\');
        push_char(out, 'n');
    } else if c == '\u{c}' {
        push_char(out, '\\');
        push_char(out, 'f');
    } else if c == '\r' {
        push_char(out, '\\');
        push_char(out, 'r');
    } else if (c as u32) < 32 {
        let code = c as u32;
        push_char(out, '\\');
        push_char(out, 'u');
        push_char(out, '0');
        push_char(out, '0');
        push_char(out, nibble_char((code / 16) as u8));
        push_char(out, nibble_char((code % 16) as u8));
    } else {
        push_char(out, c);
    }
    assert(out@ =~= before + escape_char(c));
}

/// Appends `s` as a JSON string literal (quotes included).
pub fn push_json_string(out: &mut String, s: &str)
    ensures
        final(out)@ == old(out)@ + json_string(s@),
{
    let cs = chars_of(s);
    let ghost start = out@;
    push_char(out, '"');
    let mut i: usize = 0;
    while i < cs.len()
        invariant
            i <= cs.len(),
            cs@ == s@,
            out@ == start + seq!['"'] + escape(s@.take(i as int)),
        decreases cs.len() - i,
    {
        push_escaped_char(out, cs[i]);
        i = i + 1;
        assert(s@.take(i as int).drop_last() =~= s@.take((i - 1) as int));
        assert(out@ =~= start + seq!['"'] + escape(s@.take(i as int)));
    }
    assert(s@.take(i as int) =~= s@);
    push_char(out, '"');
    assert(out@ =~= start + json_string(s@));
}

/// A JSON value of the kinds that the library writes: integers, strings and
/// objects.
pub enum JsonValue {
    Integer(i64),
    Text(Seq<char>),
    Object(Seq<JsonMember>),
}

/// One member of a JSON object: a key and its value.
pub struct JsonMember {
    pub key: Seq<char>,
    pub value: JsonValue,
}

/// The JSON text of a value: an integer in decimal, a string as a string
/// literal, an object as its members in braces, separated by commas.
pub open spec fn render(v: JsonValue) -> Seq<char>
    decreases v,
{
    match v {
        JsonValue::Integer(n) => signed_decimal(n as int),
        JsonValue::Text(s) => json_string(s),
        JsonValue::Object(members) => seq!['{'] + render_members(members) + seq!['}'],
    }
}

/// The JSON text of an object's members, separated by commas.
pub open spec fn render_members(members: Seq<JsonMember>) -> Seq<char>
    decreases members,
{
    if members.len() == 0 {
        Seq::empty()
    } else if members.len() == 1 {
        render_member(members[0])
    } else {
        render_members(members.subrange(0, members.len() - 1)) + seq![','] + render_member(
            members[members.len() - 1],
        )
    }
}

/// The JSON text of one member: its key as a string literal, ':', its value.
pub open spec fn render_member(m: JsonMember) -> Seq<char>
    decreases m,
{
    json_string(m.key) + seq![':'] + render(m.value)
}

/// `s` is JSON text: the text of some JSON value.
pub open spec fn is_json_text(s: Seq<char>) -> bool {
    exists|v: JsonValue| #[trigger] render(v) == s
}

/// Adding a member to an object's members adds a comma (unless it is the
/// first) and the member's text.
pub proof fn lemma_render_members_push(members: Seq<JsonMember>, m: JsonMember)
    ensures
        render_members(members.push(m)) == if members.len() == 0 {
            render_member(m)
        } else {
            render_members(members) + seq![','] + render_member(m)
        },
{
    let all = members.push(m);
    assert(all.subrange(0, all.len() - 1) =~= members);
    assert(all[all.len() - 1] == m);
    if members.len() == 0 {
        assert(all[0] == m);
    }
}

} // verus!
