//! Attachment downloads: who may fetch an attachment (only through its own
//! ticket, and a client never an internal note's), the `Content-Disposition`
//! value, and the MIME type a download is served with.
use vstd::prelude::*;

use crate::text::{chars_of, is_blank, is_ws, owned, push_char, push_str, string_of, trim, trim_chars};

verus! {

/// Whether a client may fetch an attachment: it belongs to the client's own
/// ticket and not to an internal note (`N`).
pub fn client_may_download(session_ticket_id: i64, file_ticket_id: i64, ref_type: &str) -> (r: bool)
    ensures
        r == (file_ticket_id == session_ticket_id && ref_type@ != "N"@),
{
    file_ticket_id == session_ticket_id && !crate::text::str_eq(ref_type, "N")
}

/// Whether staff may fetch an attachment through a ticket's path: it belongs
/// to that ticket.
pub fn staff_may_download(path_ticket_id: i64, file_ticket_id: i64) -> (r: bool)
    ensures
        r == (file_ticket_id == path_ticket_id),
{
    file_ticket_id == path_ticket_id
}

/// The MIME type a download is served with: the stored one, or the default
/// when it is blank.
pub fn download_mime(stored: &str, default: &str) -> (r: String)
    ensures
        r@ == (if trim(stored@).len() == 0 {
            default@
        } else {
            stored@
        }),
{
    if is_blank(stored) {
        owned(default)
    } else {
        owned(stored)
    }
}

/// A character the quoted file name keeps: printable ASCII but `"` and `\`.
pub open spec fn fallback_keeps(c: char) -> bool {
    (c as u32) < 128 && (c as u32) >= 0x20 && (c as u32) != 0x7f && c != '"' && c != '\\'
}

/// The quoted file name: each character kept or replaced by `_`.
pub open spec fn ascii_fallback(name: Seq<char>) -> Seq<char> {
    name.map_values(|c: char| if fallback_keeps(c) { c } else { '_' })
}

pub open spec fn is_ascii_name(name: Seq<char>) -> bool {
    forall|i: int| 0 <= i < name.len() ==> (#[trigger] name[i] as u32) < 128
}

/// A byte kept as-is in an RFC 5987 value: ASCII letters and digits and
/// `! # $ & + - . ^ _ ` | ~`.
pub open spec fn attr_byte(b: u8) -> bool {
    (0x30 <= b <= 0x39) || (0x41 <= b <= 0x5a) || (0x61 <= b <= 0x7a) || b == 0x21 || b == 0x23 || b == 0x24
        || b == 0x26 || b == 0x2b || b == 0x2d || b == 0x2e || b == 0x5e || b == 0x5f || b == 0x60 || b == 0x7c
        || b == 0x7e
}

/// The upper-case hexadecimal digit of `d` (0 to 15).
pub open spec fn hex_digit(d: int) -> char {
    if d < 10 {
        (('0' as u32) + d) as char
    } else {
        (('A' as u32) + d - 10) as char
    }
}

/// The RFC 5987 encoding of one byte: an attribute byte as itself, any other
/// as `%XX`.
pub open spec fn pct_byte(b: u8) -> Seq<char> {
    if attr_byte(b) {
        seq![b as char]
    } else {
        seq!['%', hex_digit((b / 16) as int), hex_digit((b % 16) as int)]
    }
}

/// The RFC 5987 encoding of bytes: each byte encoded in turn.
pub open spec fn pct_encode(bs: Seq<u8>) -> Seq<char>
    decreases bs.len(),
{
    if bs.len() == 0 {
        Seq::empty()
    } else {
        pct_encode(bs.drop_last()) + pct_byte(bs.last())
    }
}

/// The value of a hexadecimal digit (`0`-`9`, `A`-`F`).
pub open spec fn hex_value(c: char) -> int {
    if '0' <= c && c <= '9' {
        c as int - '0' as int
    } else {
        c as int - 'A' as int + 10
    }
}

/// Percent-decoding: `%XY` is the byte with hexadecimal digits `X` and `Y`,
/// any other character the byte of its code.
pub open spec fn pct_decode(cs: Seq<char>) -> Seq<u8>
    decreases cs.len(),
{
    if cs.len() == 0 {
        Seq::empty()
    } else if cs[0] == '%' && cs.len() >= 3 {
        seq![(16 * hex_value(cs[1]) + hex_value(cs[2])) as u8] + pct_decode(cs.skip(3))
    } else {
        seq![cs[0] as u8] + pct_decode(cs.skip(1))
    }
}

/// A character an RFC 5987 value holds: an attribute character, `%`, or an
/// upper-case hexadecimal digit.
pub open spec fn pct_char(c: char) -> bool {
    ((c as u32) < 128 && attr_byte(c as u8)) || c == '%' || ('0' <= c && c <= '9') || ('A' <= c && c <= 'F')
}

proof fn lemma_pct_encode_concat(a: Seq<u8>, b: Seq<u8>)
    ensures
        pct_encode(a + b) == pct_encode(a) + pct_encode(b),
    decreases b.len(),
{
    if b.len() == 0 {
        assert(a + b =~= a);
        assert(pct_encode(a) + pct_encode(b) =~= pct_encode(a));
    } else {
        lemma_pct_encode_concat(a, b.drop_last());
        assert((a + b).drop_last() =~= a + b.drop_last());
        assert((a + b).last() == b.last());
        assert(pct_encode(a + b) =~= pct_encode(a) + pct_encode(b.drop_last()) + pct_byte(b.last()));
    }
}

proof fn lemma_hex_round_trip(d: int)
    requires
        0 <= d < 16,
    ensures
        hex_value(hex_digit(d)) == d,
        '0' <= hex_digit(d) <= '9' || 'A' <= hex_digit(d) <= 'F',
{
}

proof fn lemma_pct_byte_decodes(b: u8, rest: Seq<char>)
    ensures
        pct_decode(pct_byte(b) + rest) == seq![b] + pct_decode(rest),
        forall|i: int| 0 <= i < pct_byte(b).len() ==> pct_char(#[trigger] pct_byte(b)[i]),
{
    let x = pct_byte(b) + rest;
    if attr_byte(b) {
        assert(x[0] == b as char);
        assert(x.skip(1) =~= rest);
        assert((b as char) as u8 == b);
    } else {
        lemma_hex_round_trip((b / 16) as int);
        lemma_hex_round_trip((b % 16) as int);
        assert(x[0] == '%' && x[1] == hex_digit((b / 16) as int) && x[2] == hex_digit((b % 16) as int));
        assert(x.skip(3) =~= rest);
        assert(16 * (b / 16) + b % 16 == b);
    }
}

/// Percent-decoding an RFC 5987 encoding gives the bytes back, and the
/// encoding holds only attribute characters, `%` and upper-case hexadecimal
/// digits.
pub proof fn law_pct_encode_round_trip(bs: Seq<u8>)
    ensures
        pct_decode(pct_encode(bs)) == bs,
        forall|i: int| 0 <= i < pct_encode(bs).len() ==> pct_char(#[trigger] pct_encode(bs)[i]),
    decreases bs.len(),
{
    if bs.len() == 0 {
    } else {
        let rest = bs.skip(1);
        law_pct_encode_round_trip(rest);
        assert(bs =~= seq![bs[0]] + rest);
        lemma_pct_encode_concat(seq![bs[0]], rest);
        let one = seq![bs[0]];
        assert(one.drop_last() =~= Seq::<u8>::empty());
        assert(one.last() == bs[0]);
        assert(pct_encode(one.drop_last()) =~= Seq::<char>::empty());
        assert(pct_encode(one) =~= pct_byte(bs[0]));
        lemma_pct_byte_decodes(bs[0], pct_encode(rest));
        let e = pct_encode(bs);
        assert(e =~= pct_byte(bs[0]) + pct_encode(rest));
        assert forall|i: int| 0 <= i < e.len() implies pct_char(#[trigger] e[i]) by {
            if i < pct_byte(bs[0]).len() {
                assert(e[i] == pct_byte(bs[0])[i]);
            } else {
                assert(e[i] == pct_encode(rest)[i - pct_byte(bs[0]).len()]);
            }
        }
    }
}

fn hex_char(d: u8) -> (r: char)
    requires
        d < 16,
    ensures
        r == hex_digit(d as int),
{
    if d < 10 {
        let u: u8 = 48 + d;
        u as char
    } else {
        let u: u8 = 55 + d;
        u as char
    }
}

/// Percent-encodes the UTF-8 bytes of `s` for an RFC 5987 value.
pub fn percent_encode_rfc5987(s: &str) -> (r: String)
    ensures
        r@ == pct_encode(vstd::utf8::encode_utf8(s@)),
{
    let bytes = s.as_bytes();
    let mut out = String::new();
    let mut i: usize = 0;
    while i < bytes.len()
        invariant
            i <= bytes@.len(),
            bytes@ == vstd::utf8::encode_utf8(s@),
            out@ == pct_encode(bytes@.take(i as int)),
        decreases bytes.len() - i,
    {
        let b = bytes[i];
        assert(bytes@.take(i + 1).drop_last() =~= bytes@.take(i as int));
        let keep = (48 <= b && b <= 57) || (65 <= b && b <= 90) || (97 <= b && b <= 122) || b == 33 || b == 35
            || b == 36 || b == 38 || b == 43 || b == 45 || b == 46 || b == 94 || b == 95 || b == 96 || b == 124
            || b == 126;
        if keep {
            push_char(&mut out, b as char);
        } else {
            push_char(&mut out, '%');
            push_char(&mut out, hex_char(b / 16));
            push_char(&mut out, hex_char(b % 16));
        }
        i = i + 1;
    }
    assert(bytes@.take(bytes.len() as int) =~= bytes@);
    out
}

/// The `Content-Disposition` of a download: always `attachment`, with the
/// quoted ASCII file name (`download` when that is blank), and for a
/// non-ASCII name also the full name as `filename*=UTF-8''…`.
pub open spec fn disposition_spec(name: Seq<char>) -> Seq<char> {
    let f = ascii_fallback(name);
    let f = if trim(f).len() == 0 {
        "download"@
    } else {
        f
    };
    if is_ascii_name(name) {
        "attachment; filename=\""@ + f + "\""@
    } else {
        "attachment; filename=\""@ + f + "\"; filename*=UTF-8''"@ + pct_encode(vstd::utf8::encode_utf8(name))
    }
}

/// The `Content-Disposition` of a download.
pub fn content_disposition(name: &str) -> (r: String)
    ensures
        r@ == disposition_spec(name@),
{
    let v = chars_of(name);
    let mut fb: Vec<char> = Vec::new();
    let mut ascii = true;
    let mut i: usize = 0;
    while i < v.len()
        invariant
            i <= v.len(),
            v@ == name@,
            fb@ == ascii_fallback(v@.take(i as int)),
            ascii == is_ascii_name(v@.take(i as int)),
        decreases v.len() - i,
    {
        let c = v[i];
        let code = c as u32;
        let keeps = code < 128 && code >= 0x20 && code != 0x7f && c != '"' && c != '\\';
        if keeps {
            fb.push(c);
        } else {
            fb.push('_');
        }
        if code >= 128 {
            ascii = false;
        }
        assert(ascii_fallback(v@.take(i + 1)) =~= ascii_fallback(v@.take(i as int)).push(
            if fallback_keeps(c) { c } else { '_' },
        ));
        proof {
            let t = v@.take(i + 1);
            if is_ascii_name(t) {
                assert((t[i as int] as u32) < 128);
            }
            if code >= 128 {
                assert(t[i as int] == c);
            }
            assert(is_ascii_name(t) == (is_ascii_name(v@.take(i as int)) && code < 128)) by {
                if is_ascii_name(v@.take(i as int)) && code < 128 {
                    assert forall|j: int| 0 <= j < t.len() implies (#[trigger] t[j] as u32) < 128 by {
                        if j < i {
                            assert(t[j] == v@.take(i as int)[j]);
                        }
                    }
                }
                if is_ascii_name(t) {
                    assert forall|j: int| 0 <= j < i implies (#[trigger] v@.take(i as int)[j] as u32) < 128 by {
                        assert(t[j] == v@.take(i as int)[j]);
                    }
                }
            }
        }
        i = i + 1;
    }
    assert(v@.take(v.len() as int) =~= v@);
    let t = trim_chars(&fb);
    let f = if t.len() == 0 {
        owned("download")
    } else {
        string_of(&fb)
    };
    let mut out = owned("attachment; filename=\"");
    push_str(&mut out, f.as_str());
    if ascii {
        push_str(&mut out, "\"");
    } else {
        push_str(&mut out, "\"; filename*=UTF-8''");
        let enc = percent_encode_rfc5987(name);
        push_str(&mut out, enc.as_str());
    }
    out
}

} // verus!
