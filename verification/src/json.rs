//! JSON text production: string-literal escaping and the generic pieces
//! (strings, optional strings, string arrays) the notification bodies are
//! built from.
//!
//! Every function appends to a growing `String`; the specification functions
//! give the exact character sequence appended.

use vstd::prelude::*;

verus! {

/// The lower-case hexadecimal digit character for `d` (0 to 15).
pub open spec fn hex_digit(d: int) -> char {
    if d < 10 {
        ((0x30 + d) as u8) as char
    } else {
        ((0x57 + d) as u8) as char
    }
}

/// How one character appears inside a JSON string literal: quote, backslash
/// and the named control characters take a two-character escape, the other
/// control characters a `\u00XX` escape with lower-case hex digits, and every
/// other character stands for itself.
pub open spec fn esc_char(c: char) -> Seq<char> {
    if c == '"' {
        seq!['\\', '"']
    } else if c == '\\' {
        seq!['\\', '\\']
    } else if c == '\u{08}' {
        seq!['\\', 'b']
    } else if c == '\u{09}' {
        seq!['\\', 't']
    } else if c == '\u{0a}' {
        seq!['\\', 'n']
    } else if c == '\u{0c}' {
        seq!['\\', 'f']
    } else if c == '\u{0d}' {
        seq!['\\', 'r']
    } else if (c as u32) < 0x20 {
        seq!['\\', 'u', '0', '0', hex_digit((c as u32) as int / 16), hex_digit((c as u32) as int % 16)]
    } else {
        seq![c]
    }
}

/// The escaped form of a whole character sequence.
pub open spec fn escape_chars(s: Seq<char>) -> Seq<char>
    decreases s.len(),
{
    if s.len() == 0 {
        Seq::empty()
    } else {
        esc_char(s[0]) + escape_chars(s.drop_first())
    }
}

/// A JSON string literal: the escaped characters between double quotes.
pub open spec fn json_string(s: Seq<char>) -> Seq<char> {
    seq!['"'] + escape_chars(s) + seq!['"']
}

/// An optional string field: a JSON string when present, `null` when absent.
pub open spec fn opt_string_json(v: Option<Seq<char>>) -> Seq<char> {
    match v {
        Some(s) => json_string(s),
        None => seq!['n', 'u', 'l', 'l'],
    }
}

/// The comma-separated items of a JSON array of strings.
pub open spec fn string_array_items(v: Seq<Seq<char>>) -> Seq<char>
    decreases v.len(),
{
    if v.len() == 0 {
        Seq::empty()
    } else if v.len() == 1 {
        json_string(v[0])
    } else {
        string_array_items(v.drop_last()) + seq![','] + json_string(v.last())
    }
}

/// A JSON array of strings.
pub open spec fn string_array_json(v: Seq<Seq<char>>) -> Seq<char> {
    seq!['['] + string_array_items(v) + seq![']']
}

/// An optional string array field: an array when present, `null` when absent.
pub open spec fn opt_string_array_json(v: Option<Seq<Seq<char>>>) -> Seq<char> {
    match v {
        Some(items) => string_array_json(items),
        None => seq!['n', 'u', 'l', 'l'],
    }
}

/// Escaping distributes over extending the input by one character.
pub proof fn lemma_escape_chars_push(s: Seq<char>, c: char)
    ensures
        escape_chars(s.push(c)) == escape_chars(s) + esc_char(c),
    decreases s.len(),
{
    if s.len() == 0 {
        assert(s.push(c)[0] == c);
        assert(s.push(c).drop_first() =~= Seq::<char>::empty());
        assert(escape_chars(s.push(c)) =~= esc_char(c) + escape_chars(Seq::<char>::empty()));
        assert(esc_char(c) + Seq::<char>::empty() =~= esc_char(c));
        assert(escape_chars(s) + esc_char(c) =~= esc_char(c));
    } else {
        assert(s.push(c)[0] == s[0]);
        assert(s.push(c).drop_first() =~= s.drop_first().push(c));
        lemma_escape_chars_push(s.drop_first(), c);
        assert(escape_chars(s.push(c)) =~= escape_chars(s) + esc_char(c));
    }
}

/// The lower-case hexadecimal digit character for `d` (0 to 15).
fn hex_char(d: u32) -> (r: char)
    requires
        d < 16,
    ensures
        r == hex_digit(d as int),
{
    if d < 10 {
        (0x30u8 + d as u8) as char
    } else {
        (0x57u8 + d as u8) as char
    }
}

/// Relies on `String::push`: appends the given character to the end of the
/// string.
#[verifier::external_body]
pub(crate) fn push_char(out: &mut String, c: char)
    ensures
        final(out)@ == old(out)@.push(c),
{
    out.push(c);
}

/// Appends the escaped form of one character.
fn append_esc_char(out: &mut String, c: char)
    ensures
        final(out)@ == old(out)@ + esc_char(c),
{
    if c == '"' {
        out.append("\\\"");
        proof {
            reveal_strlit("\\\"");
            assert(old(out)@ + "\\\""@ =~= old(out)@ + esc_char(c));
        }
    } else if c == '\\' {
        out.append("\\\\");
        proof {
            reveal_strlit("\\\\");
            assert(old(out)@ + "\\\\"@ =~= old(out)@ + esc_char(c));
        }
    } else if c == '\u{08}' {
        out.append("\\b");
        proof {
            reveal_strlit("\\b");
            assert(old(out)@ + "\\b"@ =~= old(out)@ + esc_char(c));
        }
    } else if c == '\u{09}' {
        out.append("\\t");
        proof {
            reveal_strlit("\\t");
            assert(old(out)@ + "\\t"@ =~= old(out)@ + esc_char(c));
        }
    } else if c == '\u{0a}' {
        out.append("\\n");
        proof {
            reveal_strlit("\\n");
            assert(old(out)@ + "\\n"@ =~= old(out)@ + esc_char(c));
        }
    } else if c == '\u{0c}' {
        out.append("\\f");
        proof {
            reveal_strlit("\\f");
            assert(old(out)@ + "\\f"@ =~= old(out)@ + esc_char(c));
        }
    } else if c == '\u{0d}' {
        out.append("\\r");
        proof {
            reveal_strlit("\\r");
            assert(old(out)@ + "\\r"@ =~= old(out)@ + esc_char(c));
        }
    } else {
        let u = c as u32;
        if u < 0x20 {
            out.append("\\u00");
            let h = hex_char(u / 16);
            push_char(out, h);
            let l = hex_char(u % 16);
            push_char(out, l);
            proof {
                reveal_strlit("\\u00");
                assert(final(out)@ =~= old(out)@ + esc_char(c));
            }
        } else {
            push_char(out, c);
            proof {
                assert(final(out)@ =~= old(out)@ + esc_char(c));
            }
        }
    }
}

/// Appends the escaped form of a whole string.
pub fn append_escaped(out: &mut String, s: &str)
    ensures
        final(out)@ == old(out)@ + escape_chars(s@),
{
    let n = s.unicode_len();
    let mut i: usize = 0;
    while i < n
        invariant
            n == s@.len(),
            i <= n,
            out@ == old(out)@ + escape_chars(s@.take(i as int)),
        decreases n - i,
    {
        let c = s.get_char(i);
        append_esc_char(out, c);
        proof {
            assert(s@.take(i as int + 1) =~= s@.take(i as int).push(s@[i as int]));
            lemma_escape_chars_push(s@.take(i as int), s@[i as int]);
            assert(out@ =~= old(out)@ + escape_chars(s@.take(i as int + 1)));
        }
        i += 1;
    }
    proof {
        assert(s@.take(n as int) =~= s@);
    }
}

/// Appends a JSON string literal.
pub fn append_json_string(out: &mut String, s: &str)
    ensures
        final(out)@ == old(out)@ + json_string(s@),
{
    out.append("\"");
    append_escaped(out, s);
    out.append("\"");
    proof {
        reveal_strlit("\"");
        assert(final(out)@ =~= old(out)@ + json_string(s@));
    }
}

/// Appends an optional string field: a JSON string or `null`.
pub fn append_opt_string(out: &mut String, v: &Option<String>)
    ensures
        final(out)@ == old(out)@ + opt_string_json(v.deep_view()),
{
    match v {
        Some(s) => {
            append_json_string(out, s.as_str());
        }
        None => {
            out.append("null");
            proof {
                reveal_strlit("null");
                assert(final(out)@ =~= old(out)@ + opt_string_json(v.deep_view()));
            }
        }
    }
}

/// Appends a JSON array of strings.
pub fn append_string_array(out: &mut String, v: &Vec<String>)
    ensures
        final(out)@ == old(out)@ + string_array_json(v.deep_view()),
{
    out.append("[");
    let ghost items = v.deep_view();
    let mut i: usize = 0;
    proof {
        reveal_strlit("[");
    }
    while i < v.len()
        invariant
            i <= v.len(),
            items == v.deep_view(),
            items.len() == v.len(),
            forall|j: int| 0 <= j < v.len() ==> items[j] == v[j]@,
            out@ == old(out)@ + "["@ + string_array_items(items.take(i as int)),
        decreases v.len() - i,
    {
        if i > 0 {
            out.append(",");
            proof {
                reveal_strlit(",");
            }
        }
        append_json_string(out, v[i].as_str());
        proof {
            let t = items.take(i as int + 1);
            assert(t.drop_last() =~= items.take(i as int));
            assert(t.last() == items[i as int]);
            assert(out@ =~= old(out)@ + "["@ + string_array_items(items.take(i as int + 1)));
        }
        i += 1;
    }
    out.append("]");
    proof {
        reveal_strlit("]");
        assert(items.take(v.len() as int) =~= items);
        assert(final(out)@ =~= old(out)@ + string_array_json(v.deep_view()));
    }
}

/// Appends an optional string-array field: an array or `null`.
pub fn append_opt_string_array(out: &mut String, v: &Option<Vec<String>>)
    ensures
        final(out)@ == old(out)@ + opt_string_array_json(v.deep_view()),
{
    match v {
        Some(items) => {
            append_string_array(out, items);
        }
        None => {
            out.append("null");
            proof {
                reveal_strlit("null");
                assert(final(out)@ =~= old(out)@ + opt_string_array_json(v.deep_view()));
            }
        }
    }
}

} // verus!
