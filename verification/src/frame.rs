//! Message framing: every serialized notification body is preceded by a
//! header block that declares the exact UTF-8 byte length of the body.
//!
//! The layout, with `\r\n` line endings and no trailing newline after the
//! body, is:
//!
//! ```text
//! Content-Length: <byte length of UTF-8 encoded body>\r\n
//! Content-Type: application/vscode-jsonrpc; charset=utf-8\r\n
//! \r\n
//! <body>
//! ```

use vstd::prelude::*;
use vstd::utf8::encode_utf8;

verus! {

/// The decimal digit character for `d` (0 to 9).
pub open spec fn dec_digit(d: int) -> char {
    ((0x30 + d) as u8) as char
}

/// The decimal rendering of `n`, most significant digit first, no sign and
/// no leading zero (a single `0` for zero).
pub open spec fn dec_digits(n: nat) -> Seq<char>
    decreases n,
{
    if n < 10 {
        seq![dec_digit(n as int)]
    } else {
        dec_digits(n / 10) + seq![dec_digit((n % 10) as int)]
    }
}

/// The numeric value of a decimal digit sequence.
pub open spec fn dec_value(s: Seq<char>) -> nat
    decreases s.len(),
{
    if s.len() == 0 {
        0
    } else {
        dec_value(s.drop_last()) * 10 + ((s.last() as u32) - 0x30) as nat
    }
}

/// Reading the decimal rendering of `n` back as a number yields `n`: the
/// declared `Content-Length` of a frame denotes exactly the byte count it
/// was computed from.
pub proof fn lemma_dec_digits_value(n: nat)
    ensures
        dec_value(dec_digits(n)) == n,
    decreases n,
{
    if n < 10 {
        let s = dec_digits(n);
        assert(s.len() == 1);
        assert(s.last() == dec_digit(n as int));
        assert(s.drop_last() =~= Seq::<char>::empty());
        assert(dec_value(s.drop_last()) == 0);
        assert((dec_digit(n as int) as u32) == 0x30 + n);
        assert(dec_value(s) == dec_value(s.drop_last()) * 10 + ((s.last() as u32) - 0x30) as nat);
    } else {
        lemma_dec_digits_value(n / 10);
        let whole = dec_digits(n);
        assert(whole =~= dec_digits(n / 10) + seq![dec_digit((n % 10) as int)]);
        assert(whole.len() >= 2);
        assert(whole.drop_last() =~= dec_digits(n / 10));
        assert(whole.last() == dec_digit((n % 10) as int));
        assert(n % 10 < 10);
        assert((dec_digit((n % 10) as int) as u32) == 0x30 + n % 10);
        assert(dec_value(whole) == dec_value(whole.drop_last()) * 10 + ((whole.last() as u32)
            - 0x30) as nat);
        assert((n / 10) * 10 + n % 10 == n) by (nonlinear_arith);
    }
}

/// Appends the decimal rendering of `n`.
pub fn append_dec(out: &mut String, n: usize)
    ensures
        final(out)@ == old(out)@ + dec_digits(n as nat),
    decreases n,
{
    if n < 10 {
        let d = (0x30u8 + n as u8) as char;
        crate::json::push_char(out, d);
        proof {
            assert(final(out)@ =~= old(out)@ + dec_digits(n as nat));
        }
    } else {
        append_dec(out, n / 10);
        let d = (0x30u8 + (n % 10) as u8) as char;
        crate::json::push_char(out, d);
        proof {
            assert(final(out)@ =~= old(out)@ + dec_digits(n as nat));
        }
    }
}

/// The header block declaring a body of `len` UTF-8 bytes.
pub open spec fn frame_header(len: nat) -> Seq<char> {
    "Content-Length: "@ + dec_digits(len)
        + "\r\nContent-Type: application/vscode-jsonrpc; charset=utf-8\r\n\r\n"@
}

/// A complete framed message: the header block declaring the exact UTF-8
/// byte length of `body`, then `body` itself.
pub open spec fn frame_chars(body: Seq<char>) -> Seq<char> {
    frame_header(encode_utf8(body).len()) + body
}

/// Every frame declares exactly the UTF-8 byte length of its body: the
/// digits after `Content-Length: `, read back as a decimal number, give the
/// byte count of the body that follows the header — the byte count, not the
/// character count, so multi-byte characters weigh their encoded length.
pub proof fn lemma_content_length_exact(body: Seq<char>)
    ensures
        frame_chars(body) == "Content-Length: "@ + dec_digits(encode_utf8(body).len() as nat)
            + "\r\nContent-Type: application/vscode-jsonrpc; charset=utf-8\r\n\r\n"@ + body,
        dec_value(dec_digits(encode_utf8(body).len() as nat)) == encode_utf8(body).len(),
{
    lemma_dec_digits_value(encode_utf8(body).len() as nat);
    assert(frame_chars(body) =~= "Content-Length: "@ + dec_digits(
        encode_utf8(body).len() as nat,
    ) + "\r\nContent-Type: application/vscode-jsonrpc; charset=utf-8\r\n\r\n"@ + body);
}

/// Builds the complete framed message for `body`.
pub fn frame_message(body: &str) -> (r: String)
    ensures
        r@ == frame_chars(body@),
{
    let mut out = String::new();
    out.append("Content-Length: ");
    let n = body.as_bytes().len();
    append_dec(&mut out, n);
    out.append("\r\nContent-Type: application/vscode-jsonrpc; charset=utf-8\r\n\r\n");
    out.append(body);
    proof {
        assert(out@ =~= frame_chars(body@));
    }
    out
}

} // verus!
