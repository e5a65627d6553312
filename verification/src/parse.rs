//! A specification-level inverse of the emitted wire format.
//!
//! These functions read back exactly the JSON text that the serializers in
//! [`crate::wire`] produce: a string literal with the serializer's escaping,
//! an optional field rendered as `null`, the tool tag, the manager object and
//! the manager-report envelope. They exist to state and prove that
//! serialization loses nothing: parsing a serialized value yields an equal
//! value, field presence and absence preserved.

use vstd::prelude::*;
use vstd::seq_lib::*;
use crate::json::{esc_char, escape_chars, hex_digit, json_string, opt_string_json};
use crate::model::{EnvManagerMessageV, EnvManagerType, EnvManagerV};
use crate::wire::{env_manager_message_json, manager_json, tool_json};

verus! {

/// Whether `c` is a lower-case hexadecimal digit character.
pub open spec fn is_hex(c: char) -> bool {
    0x30 <= (c as u32) <= 0x39 || 0x61 <= (c as u32) <= 0x66
}

/// The numeric value of a lower-case hexadecimal digit character.
pub open spec fn hex_val(c: char) -> u32 {
    if (c as u32) <= 0x39 {
        ((c as u32) - 0x30) as u32
    } else {
        ((c as u32) - 0x57) as u32
    }
}

/// Whether `e` names a two-character escape.
pub open spec fn is_short_escape(e: char) -> bool {
    e == '"' || e == '\\' || e == 'b' || e == 't' || e == 'n' || e == 'f' || e == 'r'
}

/// The character a two-character escape stands for.
pub open spec fn unesc_short(e: char) -> char {
    if e == '"' {
        '"'
    } else if e == '\\' {
        '\\'
    } else if e == 'b' {
        '\u{08}'
    } else if e == 't' {
        '\u{09}'
    } else if e == 'n' {
        '\u{0a}'
    } else if e == 'f' {
        '\u{0c}'
    } else {
        '\u{0d}'
    }
}

/// Reads the inside of a string literal up to its closing quote: the
/// decoded content and what follows the literal. Accepts exactly the
/// escaping the serializer emits (`\u00XX` only for control characters).
pub open spec fn parse_string_body(s: Seq<char>) -> Option<(Seq<char>, Seq<char>)>
    decreases s.len(),
{
    if s.len() == 0 {
        None
    } else if s[0] == '"' {
        Some((Seq::empty(), s.drop_first()))
    } else if s[0] == '\\' {
        if s.len() < 2 {
            None
        } else if s[1] == 'u' {
            if s.len() < 6 {
                None
            } else if s[2] == '0' && s[3] == '0' && is_hex(s[4]) && is_hex(s[5]) && hex_val(s[4])
                * 16 + hex_val(s[5]) < 0x20 {
                let v = hex_val(s[4]) * 16 + hex_val(s[5]);
                match parse_string_body(s.skip(6)) {
                    Some((content, rest)) => Some((seq![v as char] + content, rest)),
                    None => None,
                }
            } else {
                None
            }
        } else if is_short_escape(s[1]) {
            match parse_string_body(s.skip(2)) {
                Some((content, rest)) => Some((seq![unesc_short(s[1])] + content, rest)),
                None => None,
            }
        } else {
            None
        }
    } else {
        match parse_string_body(s.drop_first()) {
            Some((content, rest)) => Some((seq![s[0]] + content, rest)),
            None => None,
        }
    }
}

/// Reads a whole string literal, opening quote included.
pub open spec fn parse_json_string(s: Seq<char>) -> Option<(Seq<char>, Seq<char>)> {
    if s.len() > 0 && s[0] == '"' {
        parse_string_body(s.drop_first())
    } else {
        None
    }
}

/// Reads an optional string field: `null` or a string literal.
pub open spec fn parse_opt_string(s: Seq<char>) -> Option<(Option<Seq<char>>, Seq<char>)> {
    if seq!['n', 'u', 'l', 'l'].is_prefix_of(s) {
        Some((None, s.skip(4)))
    } else {
        match parse_json_string(s) {
            Some((content, rest)) => Some((Some(content), rest)),
            None => None,
        }
    }
}

/// Reads a fixed piece of text and returns what follows it.
pub open spec fn expect(s: Seq<char>, lit: Seq<char>) -> Option<Seq<char>> {
    if lit.is_prefix_of(s) {
        Some(s.skip(lit.len() as int))
    } else {
        None
    }
}

/// Reads a tool tag.
pub open spec fn parse_tool(s: Seq<char>) -> Option<(EnvManagerType, Seq<char>)> {
    if tool_json(EnvManagerType::Conda).is_prefix_of(s) {
        Some((EnvManagerType::Conda, s.skip(tool_json(EnvManagerType::Conda).len() as int)))
    } else if tool_json(EnvManagerType::Pyenv).is_prefix_of(s) {
        Some((EnvManagerType::Pyenv, s.skip(tool_json(EnvManagerType::Pyenv).len() as int)))
    } else {
        None
    }
}

/// Reads one serialized manager object.
pub open spec fn parse_manager(s: Seq<char>) -> Option<(EnvManagerV, Seq<char>)> {
    match expect(s, "{\"executablePath\":"@) {
        Some(s1) => match parse_json_string(s1) {
            Some((exe, s2)) => match expect(s2, ",\"version\":"@) {
                Some(s3) => match parse_opt_string(s3) {
                    Some((version, s4)) => match expect(s4, ",\"tool\":"@) {
                        Some(s5) => match parse_tool(s5) {
                            Some((tool, s6)) => match expect(s6, "}"@) {
                                Some(s7) => Some(
                                    (EnvManagerV { executable_path: exe, version, tool }, s7),
                                ),
                                None => None,
                            },
                            None => None,
                        },
                        None => None,
                    },
                    None => None,
                },
                None => None,
            },
            None => None,
        },
        None => None,
    }
}

/// Reads one serialized manager-report message.
pub open spec fn parse_env_manager_message(s: Seq<char>) -> Option<(EnvManagerMessageV, Seq<char>)> {
    match expect(s, "{\"jsonrpc\":"@) {
        Some(s1) => match parse_json_string(s1) {
            Some((jsonrpc, s2)) => match expect(s2, ",\"method\":"@) {
                Some(s3) => match parse_json_string(s3) {
                    Some((method, s4)) => match expect(s4, ",\"params\":"@) {
                        Some(s5) => match parse_manager(s5) {
                            Some((params, s6)) => match expect(s6, "}"@) {
                                Some(s7) => Some(
                                    (EnvManagerMessageV { jsonrpc, method, params }, s7),
                                ),
                                None => None,
                            },
                            None => None,
                        },
                        None => None,
                    },
                    None => None,
                },
                None => None,
            },
            None => None,
        },
        None => None,
    }
}

/// Reading back an escaped content, up to a closing quote, yields the
/// original characters and leaves exactly what followed the quote.
pub proof fn lemma_parse_escaped(x: Seq<char>, rest: Seq<char>)
    ensures
        parse_string_body(escape_chars(x) + seq!['"'] + rest) == Some((x, rest)),
    decreases x.len(),
{
    let s = escape_chars(x) + seq!['"'] + rest;
    if x.len() == 0 {
        assert(escape_chars(x) =~= Seq::<char>::empty());
        assert(s =~= seq!['"'] + rest);
        assert(s[0] == '"');
        assert(s.drop_first() =~= rest);
        assert(Seq::<char>::empty() =~= x);
    } else {
        let c = x[0];
        let x1 = x.drop_first();
        let tail = escape_chars(x1) + seq!['"'] + rest;
        lemma_parse_escaped(x1, rest);
        assert(escape_chars(x) == esc_char(c) + escape_chars(x1));
        assert(s =~= esc_char(c) + tail);
        if c == '"' || c == '\\' || c == '\u{08}' || c == '\u{09}' || c == '\u{0a}' || c == '\u{0c}'
            || c == '\u{0d}' {
            let e = esc_char(c)[1];
            assert(s[0] == '\\');
            assert(s[1] == e);
            assert(e != 'u');
            assert(is_short_escape(e));
            assert(unesc_short(e) == c);
            assert(s.skip(2) =~= tail);
            assert(seq![c] + x1 =~= x);
        } else if (c as u32) < 0x20 {
            let u = c as u32;
            assert(esc_char(c) == seq![
                '\\',
                'u',
                '0',
                '0',
                hex_digit((c as u32) as int / 16),
                hex_digit((c as u32) as int % 16),
            ]);
            assert(s[0] == '\\');
            assert(s[1] == 'u');
            assert(s[2] == '0');
            assert(s[3] == '0');
            assert(s[4] == hex_digit(u as int / 16));
            assert(s[5] == hex_digit(u as int % 16));
            assert((hex_digit(u as int / 16) as u32) == 0x30 + u / 16);
            assert(is_hex(s[4]));
            assert(hex_val(s[4]) == u / 16);
            assert(u % 16 < 16);
            if u % 16 < 10 {
                assert((hex_digit(u as int % 16) as u32) == 0x30 + u % 16);
            } else {
                assert((hex_digit(u as int % 16) as u32) == 0x57 + u % 16);
            }
            assert(is_hex(s[5]));
            assert(hex_val(s[5]) == u % 16);
            assert(hex_val(s[4]) * 16 + hex_val(s[5]) == u);
            assert(s.skip(6) =~= tail);
            vstd::utf8::char_u32_cast(c, u);
            assert((u as char) == c);
            assert(seq![c] + x1 =~= x);
        } else {
            assert(esc_char(c) == seq![c]);
            assert(s[0] == c);
            assert(c != '"' && c != '\\');
            assert(s.drop_first() =~= tail);
            assert(seq![c] + x1 =~= x);
        }
    }
}

/// Reading a fixed piece of text off the front leaves exactly what followed
/// it.
pub proof fn lemma_expect_prefix(lit: Seq<char>, rest: Seq<char>)
    ensures
        expect(lit + rest, lit) == Some(rest),
{
    assert((lit + rest).subrange(0, lit.len() as int) =~= lit);
    assert(lit.is_prefix_of(lit + rest));
    assert((lit + rest).skip(lit.len() as int) =~= rest);
}

/// Reading back a serialized string literal yields the original characters.
pub proof fn lemma_parse_json_string(x: Seq<char>, rest: Seq<char>)
    ensures
        parse_json_string(json_string(x) + rest) == Some((x, rest)),
{
    let s = json_string(x) + rest;
    assert(s =~= seq!['"'] + (escape_chars(x) + seq!['"'] + rest));
    assert(s.len() > 0 && s[0] == '"');
    assert(s.drop_first() =~= escape_chars(x) + seq!['"'] + rest);
    lemma_parse_escaped(x, rest);
}

/// Reading back a serialized optional string preserves presence and
/// absence: `null` comes back as the absent value, a string literal as the
/// present one.
pub proof fn lemma_parse_opt_string(v: Option<Seq<char>>, rest: Seq<char>)
    ensures
        parse_opt_string(opt_string_json(v) + rest) == Some((v, rest)),
{
    let s = opt_string_json(v) + rest;
    match v {
        None => {
            assert(s =~= seq!['n', 'u', 'l', 'l'] + rest);
            assert(s.subrange(0, 4) =~= seq!['n', 'u', 'l', 'l']);
            assert(seq!['n', 'u', 'l', 'l'].is_prefix_of(s));
            assert(s.skip(4) =~= rest);
        }
        Some(x) => {
            assert(s =~= seq!['"'] + (escape_chars(x) + seq!['"'] + rest));
            assert(s[0] == '"');
            if seq!['n', 'u', 'l', 'l'].is_prefix_of(s) {
                assert(s.subrange(0, 4)[0] == s[0]);
                assert(false);
            }
            lemma_parse_json_string(x, rest);
        }
    }
}

/// Reading back a serialized tool tag yields the original tag.
pub proof fn lemma_parse_tool(t: EnvManagerType, rest: Seq<char>)
    ensures
        parse_tool(tool_json(t) + rest) == Some((t, rest)),
{
    reveal_strlit("\"conda\"");
    reveal_strlit("\"pyenv\"");
    let s = tool_json(t) + rest;
    match t {
        EnvManagerType::Conda => {
            assert(s.subrange(0, 7) =~= "\"conda\""@);
            assert("\"conda\""@.is_prefix_of(s));
            assert(s.skip(7) =~= rest);
        }
        EnvManagerType::Pyenv => {
            assert(s[1] == 'p');
            if "\"conda\""@.is_prefix_of(s) {
                assert(s.subrange(0, 7)[1] == s[1]);
                assert(false);
            }
            assert(s.subrange(0, 7) =~= "\"pyenv\""@);
            assert("\"pyenv\""@.is_prefix_of(s));
            assert(s.skip(7) =~= rest);
        }
    }
}

/// Reading back a serialized manager object yields the original value,
/// field presence and absence preserved.
pub proof fn lemma_parse_manager(m: EnvManagerV, rest: Seq<char>)
    ensures
        parse_manager(manager_json(m) + rest) == Some((m, rest)),
{
    let s = manager_json(m) + rest;
    let r6 = "}"@ + rest;
    let r5 = tool_json(m.tool) + r6;
    let r4 = ",\"tool\":"@ + r5;
    let r3 = opt_string_json(m.version) + r4;
    let r2 = ",\"version\":"@ + r3;
    let r1 = json_string(m.executable_path) + r2;
    assert(s =~= "{\"executablePath\":"@ + r1);
    lemma_expect_prefix("{\"executablePath\":"@, r1);
    assert(r1 =~= json_string(m.executable_path) + r2);
    lemma_parse_json_string(m.executable_path, r2);
    lemma_expect_prefix(",\"version\":"@, r3);
    lemma_parse_opt_string(m.version, r4);
    lemma_expect_prefix(",\"tool\":"@, r5);
    lemma_parse_tool(m.tool, r6);
    lemma_expect_prefix("}"@, rest);
    assert(parse_manager(s) == Some((EnvManagerV {
        executable_path: m.executable_path,
        version: m.version,
        tool: m.tool,
    }, rest)));
    assert((EnvManagerV { executable_path: m.executable_path, version: m.version, tool: m.tool })
        == m);
}

/// Serializing a manager and parsing the result round-trips to an equal
/// value: the wire format loses nothing.
pub proof fn lemma_manager_round_trip(m: EnvManagerV)
    ensures
        parse_manager(manager_json(m)) == Some((m, Seq::<char>::empty())),
{
    lemma_parse_manager(m, Seq::empty());
    assert(manager_json(m) + Seq::<char>::empty() =~= manager_json(m));
}

/// Two managers with the same wire text are the same value.
pub proof fn lemma_manager_json_injective(a: EnvManagerV, b: EnvManagerV)
    requires
        manager_json(a) == manager_json(b),
    ensures
        a == b,
{
    lemma_manager_round_trip(a);
    lemma_manager_round_trip(b);
}

/// Serializing a whole manager-report message and parsing the result
/// round-trips to an equal value.
pub proof fn lemma_env_manager_message_round_trip(m: EnvManagerMessageV)
    ensures
        parse_env_manager_message(env_manager_message_json(m)) == Some(
            (m, Seq::<char>::empty()),
        ),
{
    let rest = Seq::<char>::empty();
    let s = env_manager_message_json(m) + rest;
    let r6 = "}"@ + rest;
    let r5 = manager_json(m.params) + r6;
    let r4 = ",\"params\":"@ + r5;
    let r3 = json_string(m.method) + r4;
    let r2 = ",\"method\":"@ + r3;
    let r1 = json_string(m.jsonrpc) + r2;
    assert(s =~= "{\"jsonrpc\":"@ + r1);
    lemma_expect_prefix("{\"jsonrpc\":"@, r1);
    lemma_parse_json_string(m.jsonrpc, r2);
    lemma_expect_prefix(",\"method\":"@, r3);
    lemma_parse_json_string(m.method, r4);
    lemma_expect_prefix(",\"params\":"@, r5);
    lemma_parse_manager(m.params, r6);
    lemma_expect_prefix("}"@, rest);
    assert(parse_env_manager_message(s) == Some((EnvManagerMessageV {
        jsonrpc: m.jsonrpc,
        method: m.method,
        params: m.params,
    }, rest)));
    assert((EnvManagerMessageV { jsonrpc: m.jsonrpc, method: m.method, params: m.params }) == m);
    assert(env_manager_message_json(m) + rest =~= env_manager_message_json(m));
}

} // verus!
