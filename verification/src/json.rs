//! JSON string literals, the building block of every canonical form.
//!
//! Text is handled as UTF-8 bytes. Only bytes below 0x80 are ever escaped, so
//! escaping byte by byte is escaping character by character.

use crate::hash::hex_digit;
use vstd::prelude::*;

verus! {

/// How one byte of a string appears inside a JSON string literal: the quote
/// and the backslash behind a backslash, the five control characters that
/// have a short form in that form, every other control character as `\u00`
/// and two hexadecimal digits, and any other byte as itself.
pub open spec fn escape_byte(b: u8) -> Seq<u8> {
    if b == 0x22 {
        seq![0x5cu8, 0x22u8]
    } else if b == 0x5c {
        seq![0x5cu8, 0x5cu8]
    } else if b == 0x08 {
        seq![0x5cu8, 0x62u8]
    } else if b == 0x09 {
        seq![0x5cu8, 0x74u8]
    } else if b == 0x0a {
        seq![0x5cu8, 0x6eu8]
    } else if b == 0x0c {
        seq![0x5cu8, 0x66u8]
    } else if b == 0x0d {
        seq![0x5cu8, 0x72u8]
    } else if b < 0x20 {
        seq![0x5cu8, 0x75u8, 0x30u8, 0x30u8, hex_digit(b as int / 16), hex_digit(b as int % 16)]
    } else {
        seq![b]
    }
}

/// The bytes of `text`, each escaped, in order.
pub open spec fn escape(text: Seq<u8>) -> Seq<u8>
    decreases text.len(),
{
    if text.len() == 0 {
        Seq::empty()
    } else {
        escape(text.drop_last()) + escape_byte(text.last())
    }
}

/// `text` as a JSON string literal: escaped, between two quotes.
pub open spec fn quote(text: Seq<u8>) -> Seq<u8> {
    seq![0x22u8] + escape(text) + seq![0x22u8]
}

fn push_escaped_byte(out: &mut Vec<u8>, b: u8)
    ensures
        final(out)@ == old(out)@ + escape_byte(b),
{
    if b == 0x22 || b == 0x5c {
        out.push(0x5c);
        out.push(b);
    } else if b == 0x08 {
        out.push(0x5c);
        out.push(0x62);
    } else if b == 0x09 {
        out.push(0x5c);
        out.push(0x74);
    } else if b == 0x0a {
        out.push(0x5c);
        out.push(0x6e);
    } else if b == 0x0c {
        out.push(0x5c);
        out.push(0x66);
    } else if b == 0x0d {
        out.push(0x5c);
        out.push(0x72);
    } else if b < 0x20 {
        let high: u8 = if b < 0x10 { 0x30 } else { 0x31 };
        let low_nibble: u8 = b % 16;
        let low: u8 = if low_nibble < 10 { 0x30 + low_nibble } else { 0x57 + low_nibble };
        out.push(0x5c);
        out.push(0x75);
        out.push(0x30);
        out.push(0x30);
        out.push(high);
        out.push(low);
    } else {
        out.push(b);
    }
}

/// Appends `text` to `out` as a JSON string literal.
pub fn push_quoted(out: &mut Vec<u8>, text: &[u8])
    ensures
        final(out)@ == old(out)@ + quote(text@),
{
    out.push(0x22);
    let mut i: usize = 0;
    while i < text.len()
        invariant
            i <= text.len(),
            out@ == old(out)@ + seq![0x22u8] + escape(text@.take(i as int)),
        decreases text.len() - i,
    {
        proof {
            let next = text@.take(i + 1);
            assert(next.drop_last() =~= text@.take(i as int));
        }
        push_escaped_byte(out, text[i]);
        i += 1;
    }
    assert(text@.take(i as int) =~= text@);
    out.push(0x22);
}

/// `text` as a JSON string literal.
pub fn quoted(text: &[u8]) -> (out: Vec<u8>)
    ensures
        out@ == quote(text@),
{
    let mut out: Vec<u8> = Vec::new();
    push_quoted(&mut out, text);
    out
}

/// The value of a lower-case hexadecimal digit.
pub open spec fn hex_value(digit: u8) -> Option<int> {
    if 0x30 <= digit <= 0x39 {
        Some(digit - 0x30)
    } else if 0x61 <= digit <= 0x66 {
        Some(digit - 0x57)
    } else {
        None
    }
}

/// Whether a control character has a short escaped form.
pub open spec fn has_short_form(b: int) -> bool {
    b == 0x08 || b == 0x09 || b == 0x0a || b == 0x0c || b == 0x0d
}

/// The byte whose escaped form stands at `at` in `bytes`, and the length of
/// that form. Only the form that [`escape_byte`] writes is read.
pub open spec fn unescape_at(bytes: Seq<u8>, at: int) -> Option<(u8, int)> {
    if at < 0 || at >= bytes.len() {
        None
    } else if bytes[at] == 0x5c {
        if at + 1 >= bytes.len() {
            None
        } else if bytes[at + 1] == 0x22 || bytes[at + 1] == 0x5c {
            Some((bytes[at + 1], 2))
        } else if bytes[at + 1] == 0x62 {
            Some((0x08u8, 2))
        } else if bytes[at + 1] == 0x74 {
            Some((0x09u8, 2))
        } else if bytes[at + 1] == 0x6e {
            Some((0x0au8, 2))
        } else if bytes[at + 1] == 0x66 {
            Some((0x0cu8, 2))
        } else if bytes[at + 1] == 0x72 {
            Some((0x0du8, 2))
        } else if bytes[at + 1] == 0x75 && at + 5 < bytes.len() && bytes[at + 2] == 0x30
            && bytes[at + 3] == 0x30 && (bytes[at + 4] == 0x30 || bytes[at + 4] == 0x31)
            && hex_value(bytes[at + 5]) is Some {
            let value = (bytes[at + 4] - 0x30) * 16 + hex_value(bytes[at + 5])->0;
            if has_short_form(value) {
                None
            } else {
                Some((value as u8, 6))
            }
        } else {
            None
        }
    } else if bytes[at] < 0x20 || bytes[at] == 0x22 {
        None
    } else {
        Some((bytes[at], 1))
    }
}

/// Reads escaped bytes from `at` up to the closing quote: the text read,
/// behind `read`, and the place behind the quote.
pub open spec fn unescape_from(bytes: Seq<u8>, at: int, read: Seq<u8>) -> Option<(Seq<u8>, int)>
    decreases bytes.len() - at,
{
    if at < 0 || at >= bytes.len() {
        None
    } else if bytes[at] == 0x22 {
        Some((read, at + 1))
    } else {
        match unescape_at(bytes, at) {
            Some((b, length)) => if length >= 1 {
                unescape_from(bytes, at + length, read.push(b))
            } else {
                None
            },
            None => None,
        }
    }
}

/// Reads the string literal that begins at `at`: its text, and the place
/// behind its closing quote.
pub open spec fn unquote(bytes: Seq<u8>, at: int) -> Option<(Seq<u8>, int)> {
    if 0 <= at < bytes.len() && bytes[at] == 0x22 {
        unescape_from(bytes, at + 1, Seq::empty())
    } else {
        None
    }
}

fn hex_value_of(digit: u8) -> (value: Option<u8>)
    ensures
        match value {
            Some(v) => hex_value(digit) == Some(v as int),
            None => hex_value(digit) is None,
        },
{
    if 0x30 <= digit && digit <= 0x39 {
        Some(digit - 0x30)
    } else if 0x61 <= digit && digit <= 0x66 {
        Some(digit - 0x57)
    } else {
        None
    }
}

fn read_escaped(bytes: &[u8], at: usize) -> (result: Option<(u8, usize)>)
    ensures
        match result {
            Some((b, length)) => unescape_at(bytes@, at as int) == Some((b, length as int)) && 1
                <= length <= 6 && at + length <= bytes.len(),
            None => unescape_at(bytes@, at as int) is None,
        },
{
    if at >= bytes.len() {
        return None;
    }
    let first: u8 = bytes[at];
    if first == 0x5c {
        if bytes.len() - at < 2 {
            return None;
        }
        let second: u8 = bytes[at + 1];
        if second == 0x22 || second == 0x5c {
            Some((second, 2))
        } else if second == 0x62 {
            Some((0x08, 2))
        } else if second == 0x74 {
            Some((0x09, 2))
        } else if second == 0x6e {
            Some((0x0a, 2))
        } else if second == 0x66 {
            Some((0x0c, 2))
        } else if second == 0x72 {
            Some((0x0d, 2))
        } else if second == 0x75 {
            if bytes.len() - at < 6 {
                return None;
            }
            if bytes[at + 2] != 0x30 || bytes[at + 3] != 0x30 {
                return None;
            }
            let high: u8 = bytes[at + 4];
            if high != 0x30 && high != 0x31 {
                return None;
            }
            match hex_value_of(bytes[at + 5]) {
                Some(low) => {
                    let value: u8 = (high - 0x30) * 16 + low;
                    if value == 0x08 || value == 0x09 || value == 0x0a || value == 0x0c || value
                        == 0x0d {
                        None
                    } else {
                        Some((value, 6))
                    }
                },
                None => None,
            }
        } else {
            None
        }
    } else if first < 0x20 || first == 0x22 {
        None
    } else {
        Some((first, 1))
    }
}

/// Reads the string literal that begins at `at` in `bytes`: its text, and the
/// place behind its closing quote. Nothing is read where no literal of the
/// form that [`push_quoted`] writes begins there.
pub fn read_quoted(bytes: &[u8], at: usize) -> (result: Option<(Vec<u8>, usize)>)
    ensures
        match result {
            Some((text, end)) => unquote(bytes@, at as int) == Some((text@, end as int)) && at < end
                <= bytes.len(),
            None => unquote(bytes@, at as int) is None,
        },
{
    if at >= bytes.len() || bytes[at] != 0x22 {
        return None;
    }
    let mut text: Vec<u8> = Vec::new();
    let mut i: usize = at + 1;
    loop
        invariant
            at < i <= bytes.len(),
            unquote(bytes@, at as int) == unescape_from(bytes@, i as int, text@),
        decreases bytes.len() - i,
    {
        if i >= bytes.len() {
            return None;
        }
        if bytes[i] == 0x22 {
            return Some((text, i + 1));
        }
        match read_escaped(bytes, i) {
            Some((b, length)) => {
                text.push(b);
                i += length;
            },
            None => {
                return None;
            },
        }
    }
}

/// The escaped form of a text that begins with `first`.
proof fn lemma_escape_first(text: Seq<u8>)
    requires
        text.len() > 0,
    ensures
        escape(text) == escape_byte(text.first()) + escape(text.drop_first()),
    decreases text.len(),
{
    if text.len() == 1 {
        assert(text.drop_last() =~= Seq::<u8>::empty());
        assert(text.drop_first() =~= Seq::<u8>::empty());
    } else {
        lemma_escape_first(text.drop_last());
        assert(text.drop_last().drop_first() =~= text.drop_first().drop_last());
    }
}

/// An escaped byte is read back as that byte.
proof fn lemma_unescape_at_inverts(bytes: Seq<u8>, at: int, b: u8)
    requires
        0 <= at,
        at + escape_byte(b).len() <= bytes.len(),
        bytes.subrange(at, at + escape_byte(b).len()) == escape_byte(b),
    ensures
        unescape_at(bytes, at) == Some((b, escape_byte(b).len() as int)),
        bytes[at] != 0x22,
        escape_byte(b).len() >= 1,
{
    let form = bytes.subrange(at, at + escape_byte(b).len());
    assert(form[0] == bytes[at]);
    if form.len() >= 2 {
        assert(form[1] == bytes[at + 1]);
    }
    if form.len() == 6 {
        assert(form[2] == bytes[at + 2]);
        assert(form[3] == bytes[at + 3]);
        assert(form[4] == bytes[at + 4]);
        assert(form[5] == bytes[at + 5]);
    }
}

/// What is read as a byte is the escaped form of that byte.
proof fn lemma_unescape_at_reads_escaped(bytes: Seq<u8>, at: int)
    requires
        unescape_at(bytes, at) is Some,
    ensures
        ({
            let (b, length) = unescape_at(bytes, at)->0;
            &&& length == escape_byte(b).len()
            &&& 0 <= at
            &&& at + length <= bytes.len()
            &&& bytes.subrange(at, at + length) == escape_byte(b)
        }),
{
}

/// A quoted text is read back: where the escaped form of `text` and a quote
/// stand at `at`, reading from there gives `text` behind what was read
/// before, and ends behind the quote.
proof fn lemma_unescape_inverts(bytes: Seq<u8>, at: int, text: Seq<u8>, read: Seq<u8>)
    requires
        0 <= at,
        at + escape(text).len() + 1 <= bytes.len(),
        bytes.subrange(at, at + escape(text).len() + 1) == escape(text) + seq![0x22u8],
    ensures
        unescape_from(bytes, at, read) == Some((read + text, at + escape(text).len() + 1)),
    decreases text.len(),
{
    let part = bytes.subrange(at, at + escape(text).len() + 1);
    if text.len() == 0 {
        assert(part[0] == bytes[at]);
    } else {
        let b = text.first();
        let rest = text.drop_first();
        lemma_escape_first(text);
        let n = escape_byte(b).len() as int;
        assert(bytes.subrange(at, at + n) =~= escape_byte(b)) by {
            assert forall|k: int| 0 <= k < n implies bytes[at + k] == escape_byte(b)[k] by {
                assert(part[k] == bytes[at + k]);
            }
        }
        lemma_unescape_at_inverts(bytes, at, b);
        assert(bytes.subrange(at + n, at + n + escape(rest).len() + 1) =~= escape(rest)
            + seq![0x22u8]) by {
            assert forall|k: int| 0 <= k < escape(rest).len() + 1 implies bytes[at + n + k] == (
            escape(rest) + seq![0x22u8])[k] by {
                assert(part[n + k] == bytes[at + n + k]);
            }
        }
        lemma_unescape_inverts(bytes, at + n, rest, read.push(b));
    }
}

/// What is read is what was quoted: the text read continues `read`, and
/// its escaped form and a quote are the bytes that were read.
proof fn lemma_unescape_reads_quoted(bytes: Seq<u8>, at: int, read: Seq<u8>)
    requires
        unescape_from(bytes, at, read) is Some,
    ensures
        ({
            let (text, end) = unescape_from(bytes, at, read)->0;
            let tail = text.subrange(read.len() as int, text.len() as int);
            &&& 0 <= at < end <= bytes.len()
            &&& text.len() >= read.len()
            &&& text.subrange(0, read.len() as int) == read
            &&& bytes.subrange(at, end) == escape(tail) + seq![0x22u8]
        }),
    decreases bytes.len() - at,
{
    let (text, end) = unescape_from(bytes, at, read)->0;
    if bytes[at] != 0x22 {
        let (b, length) = unescape_at(bytes, at)->0;
        lemma_unescape_at_reads_escaped(bytes, at);
        lemma_unescape_reads_quoted(bytes, at + length, read.push(b));
        let longer = read.push(b);
        let tail = text.subrange(read.len() as int, text.len() as int);
        let rest = text.subrange(longer.len() as int, text.len() as int);
        assert forall|k: int| 0 <= k < longer.len() implies text[k] == longer[k] by {
            assert(text.subrange(0, longer.len() as int)[k] == longer[k]);
        }
        assert(text.subrange(0, read.len() as int) =~= read);
        assert(tail.drop_first() =~= rest);
        lemma_escape_first(tail);
        assert(bytes.subrange(at, end) =~= bytes.subrange(at, at + length) + bytes.subrange(
            at + length,
            end,
        ));
    }
}

/// Reading inverts quoting: where `quote(text)` stands at `at`, it is read as
/// `text`, whatever stands before and behind it.
pub proof fn law_unquote_inverts_quote(bytes: Seq<u8>, at: int, text: Seq<u8>)
    requires
        0 <= at,
        at + quote(text).len() <= bytes.len(),
        bytes.subrange(at, at + quote(text).len()) == quote(text),
    ensures
        unquote(bytes, at) == Some((text, at + quote(text).len())),
{
    let part = bytes.subrange(at, at + quote(text).len());
    assert(part[0] == bytes[at]);
    assert(bytes.subrange(at + 1, at + 1 + escape(text).len() + 1) =~= escape(text)
        + seq![0x22u8]) by {
        assert forall|k: int| 0 <= k < escape(text).len() + 1 implies bytes[at + 1 + k] == (
        escape(text) + seq![0x22u8])[k] by {
            assert(part[1 + k] == bytes[at + 1 + k]);
        }
    }
    lemma_unescape_inverts(bytes, at + 1, text, Seq::empty());
}

/// Only what was quoted is read: a literal that is read as `text` is
/// `quote(text)`, byte for byte.
pub proof fn law_unquote_reads_only_quotes(bytes: Seq<u8>, at: int)
    requires
        unquote(bytes, at) is Some,
    ensures
        ({
            let (text, end) = unquote(bytes, at)->0;
            &&& 0 <= at < end <= bytes.len()
            &&& end == at + quote(text).len()
            &&& bytes.subrange(at, end) == quote(text)
        }),
{
    let (text, end) = unquote(bytes, at)->0;
    lemma_unescape_reads_quoted(bytes, at + 1, Seq::empty());
    assert(text.subrange(0, text.len() as int) =~= text);
    assert(bytes.subrange(at, end) =~= seq![0x22u8] + bytes.subrange(at + 1, end));
}

} // verus!
