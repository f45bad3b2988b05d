//! Text rules shared by the identifiers, queries and previews of the runtime.

use vstd::prelude::*;
use vstd::string::*;
use vstd::utf8::{
    decode_utf8_split, encode_utf8, encode_utf8_decode_utf8, encode_utf8_first_scalar,
    encode_utf8_valid_utf8, is_char_boundary, is_char_boundary_start_end_of_seq, pop_first_scalar,
};

verus! {

/// Length of a text in UTF-8 bytes.
pub open spec fn utf8_len(text: Seq<char>) -> nat {
    encode_utf8(text).len()
}

/// The Unicode general category "control": C0, DEL and C1.
pub open spec fn is_control(c: char) -> bool {
    c as u32 <= 0x1f || 0x7f <= c as u32 <= 0x9f
}

/// The Unicode property `White_Space`.
pub open spec fn is_space(c: char) -> bool {
    ||| 0x09 <= c as u32 <= 0x0d
    ||| c as u32 == 0x20
    ||| c as u32 == 0x85
    ||| c as u32 == 0xa0
    ||| c as u32 == 0x1680
    ||| 0x2000 <= c as u32 <= 0x200a
    ||| c as u32 == 0x2028
    ||| c as u32 == 0x2029
    ||| c as u32 == 0x202f
    ||| c as u32 == 0x205f
    ||| c as u32 == 0x3000
}

pub open spec fn has_control(text: Seq<char>) -> bool {
    exists|i: int| 0 <= i < text.len() && is_control(#[trigger] text[i])
}

/// A text that is not empty, fits in `max` bytes and holds no control character.
pub open spec fn bounded_text(text: Seq<char>, max: int) -> bool {
    text.len() > 0 && utf8_len(text) <= max && !has_control(text)
}

pub fn char_is_control(c: char) -> (r: bool)
    ensures
        r == is_control(c),
{
    let code = c as u32;
    code <= 0x1f || (0x7f <= code && code <= 0x9f)
}

/// Length of a text in UTF-8 bytes.
pub fn byte_len(text: &str) -> (r: usize)
    ensures
        r == utf8_len(text@),
{
    text.as_bytes().len()
}

pub fn contains_control(text: &str) -> (r: bool)
    ensures
        r == has_control(text@),
{
    let mut found = false;
    for c in it: text.chars()
        invariant
            found == exists|i: int| 0 <= i < it.index() && is_control(#[trigger] text@[i]),
            it.seq() == text@,
    {
        if char_is_control(c) {
            found = true;
        }
    }
    found
}

/// Whether two texts have the same characters.
pub fn str_equal(a: &str, b: &str) -> (r: bool)
    ensures
        r == (a@ == b@),
{
    a.to_owned() == b.to_owned()
}

pub fn char_is_space(c: char) -> (r: bool)
    ensures
        r == is_space(c),
{
    let code = c as u32;
    (0x09 <= code && code <= 0x0d) || code == 0x20 || code == 0x85 || code == 0xa0 || code == 0x1680
        || (0x2000 <= code && code <= 0x200a) || code == 0x2028 || code == 0x2029 || code == 0x202f
        || code == 0x205f || code == 0x3000
}

/// Whether a text starts or ends with white space.
pub fn edge_is_space(text: &str) -> (r: bool)
    requires
        text@.len() > 0,
    ensures
        r == (is_space(text@.first()) || is_space(text@.last())),
{
    let count = text.unicode_len();
    char_is_space(text.get_char(0)) || char_is_space(text.get_char(count - 1))
}

/// The text between the white space at its ends.
pub open spec fn trimmed(text: Seq<char>) -> Seq<char>
    decreases text.len(),
{
    if text.len() == 0 {
        text
    } else if is_space(text.first()) {
        trimmed(text.drop_first())
    } else if is_space(text.last()) {
        trimmed(text.drop_last())
    } else {
        text
    }
}

/// A copy of the text between the white space at its ends.
pub fn trim_text(text: &str) -> (r: String)
    ensures
        r@ == trimmed(text@),
{
    let count = text.unicode_len();
    let mut from: usize = 0;
    proof {
        assert(text@.subrange(0, count as int) =~= text@);
    }
    while from < count && char_is_space(text.get_char(from))
        invariant
            from <= count == text@.len(),
            trimmed(text@) == trimmed(text@.subrange(from as int, count as int)),
        ensures
            from <= count,
            trimmed(text@) == trimmed(text@.subrange(from as int, count as int)),
            from < count ==> !is_space(text@[from as int]),
        decreases count - from,
    {
        proof {
            let rest = text@.subrange(from as int, count as int);
            assert(rest.first() == text@[from as int]);
            assert(rest.drop_first() =~= text@.subrange(from + 1, count as int));
        }
        from = from + 1;
    }
    let mut to: usize = count;
    while to > from && char_is_space(text.get_char(to - 1))
        invariant
            from <= to <= count == text@.len(),
            from < count ==> !is_space(text@[from as int]),
            trimmed(text@) == trimmed(text@.subrange(from as int, to as int)),
        ensures
            from <= to <= count,
            trimmed(text@) == trimmed(text@.subrange(from as int, to as int)),
            from < to ==> !is_space(text@[to - 1]) && !is_space(text@[from as int]),
        decreases to - from,
    {
        proof {
            let rest = text@.subrange(from as int, to as int);
            assert(rest.first() == text@[from as int]);
            assert(rest.last() == text@[to - 1]);
            assert(rest.drop_last() =~= text@.subrange(from as int, to - 1));
        }
        to = to - 1;
    }
    proof {
        let rest = text@.subrange(from as int, to as int);
        if from < to {
            assert(rest.first() == text@[from as int]);
            assert(rest.last() == text@[to - 1]);
        }
        assert(trimmed(rest) == rest);
    }
    text.substring_char(from, to).to_owned()
}

/// The longest beginning of a text that fits in `max` bytes.
pub open spec fn truncated(text: Seq<char>, max: int) -> Seq<char>
    decreases text.len(),
{
    if text.len() == 0 || utf8_len(text) <= max {
        text
    } else {
        truncated(text.drop_last(), max)
    }
}

/// The beginnings of a text end at its character boundaries, and longer ones end later.
proof fn beginning_ends_at_boundary(text: Seq<char>, n: int)
    requires
        0 <= n <= text.len(),
    ensures
        is_char_boundary(encode_utf8(text), utf8_len(text.take(n)) as int),
        utf8_len(text.take(n)) <= utf8_len(text),
        forall|m: int|
            0 <= m < n ==> utf8_len(#[trigger] text.take(m)) < utf8_len(text.take(n)),
    decreases text.len(),
{
    let bytes = encode_utf8(text);
    encode_utf8_valid_utf8(text);
    is_char_boundary_start_end_of_seq(bytes);
    assert(text.take(0) =~= Seq::empty());
    if n > 0 {
        let rest = text.drop_first();
        encode_utf8_first_scalar(text);
        beginning_ends_at_boundary(rest, n - 1);
        assert(pop_first_scalar(bytes) =~= encode_utf8(rest));
        assert(text.take(n).drop_first() =~= rest.take(n - 1));
        assert(text.take(n)[0] == text[0]);
        assert forall|m: int| 0 <= m < n implies utf8_len(#[trigger] text.take(m)) < utf8_len(
            text.take(n),
        ) by {
            if m > 0 {
                assert(text.take(m).drop_first() =~= rest.take(m - 1));
                assert(text.take(m)[0] == text[0]);
            }
        }
    }
}

proof fn truncated_at(text: Seq<char>, max: int, n: int, from: int)
    requires
        0 <= n <= from <= text.len(),
        utf8_len(text.take(n)) <= max,
        forall|m: int| n < m <= from ==> utf8_len(#[trigger] text.take(m)) > max,
    ensures
        truncated(text.take(from), max) == text.take(n),
    decreases from,
{
    if from > n {
        assert(text.take(from).drop_last() =~= text.take(from - 1));
        truncated_at(text, max, n, from - 1);
    }
}

/// Cuts a text to `max` bytes, between two characters. Says whether anything was cut.
pub fn truncate_utf8(value: String, max_bytes: usize) -> (r: (String, bool))
    ensures
        r.0@ == truncated(value@, max_bytes as int),
        r.1 == (utf8_len(value@) > max_bytes),
{
    let text = value.as_str();
    if byte_len(text) <= max_bytes {
        return (value, false);
    }
    let ghost bytes = encode_utf8(text@);
    proof {
        encode_utf8_valid_utf8(text@);
        is_char_boundary_start_end_of_seq(bytes);
    }
    let mut boundary: usize = max_bytes;
    while !text.is_char_boundary(boundary)
        invariant
            boundary <= max_bytes < bytes.len(),
            bytes == encode_utf8(text@),
            is_char_boundary(bytes, 0),
            forall|at: int| boundary < at <= max_bytes ==> !is_char_boundary(bytes, at),
        decreases boundary,
    {
        boundary = boundary - 1;
    }
    let (kept, cut) = text.split_at(boundary);
    proof {
        decode_utf8_split(bytes, boundary as int);
        encode_utf8_decode_utf8(text@);
        encode_utf8_decode_utf8(kept@);
        encode_utf8_decode_utf8(cut@);
        assert(bytes.subrange(0, boundary as int) == encode_utf8(kept@));
        assert(bytes.subrange(boundary as int, bytes.len() as int) == encode_utf8(cut@));
        assert(text@ == kept@ + cut@);
        let n = kept@.len() as int;
        assert(text@.take(n) =~= kept@);
        assert forall|m: int| n < m <= text@.len() implies utf8_len(#[trigger] text@.take(m))
            > max_bytes by {
            beginning_ends_at_boundary(text@, m);
            assert(utf8_len(text@.take(n)) < utf8_len(text@.take(m)));
        }
        truncated_at(text@, max_bytes as int, n, text@.len() as int);
        assert(text@.take(text@.len() as int) =~= text@);
    }
    (kept.to_owned(), true)
}

/// The digit of a number below 16.
pub open spec fn hex_digit(n: int) -> char {
    "0123456789abcdef"@[n]
}

/// Bytes in lower-case hexadecimal digits, two for each.
pub open spec fn hex_text(bytes: Seq<u8>) -> Seq<char> {
    Seq::new(
        2 * bytes.len(),
        |i: int|
            if i % 2 == 0 {
                hex_digit(bytes[i / 2] as int / 16)
            } else {
                hex_digit(bytes[i / 2] as int % 16)
            },
    )
}

fn append_hex_digit(n: u8, out: &mut String)
    requires
        n < 16,
    ensures
        final(out)@ == old(out)@.push(hex_digit(n as int)),
{
    proof {
        reveal_strlit("0123456789abcdef");
    }
    let at = n as usize;
    out.append("0123456789abcdef".substring_char(at, at + 1));
    assert(out@ =~= old(out)@.push(hex_digit(n as int)));
}

/// Writes bytes in hexadecimal digits.
pub fn hex(bytes: &[u8]) -> (r: String)
    ensures
        r@ == hex_text(bytes@),
{
    let mut out = String::new();
    let mut i: usize = 0;
    while i < bytes.len()
        invariant
            i <= bytes@.len(),
            out@ =~= hex_text(bytes@.take(i as int)),
        decreases bytes.len() - i,
    {
        let ghost before = out@;
        let byte = bytes[i];
        append_hex_digit(byte / 16, &mut out);
        append_hex_digit(byte % 16, &mut out);
        proof {
            let now = hex_text(bytes@.take(i + 1));
            assert forall|j: int| 0 <= j < now.len() implies out@[j] == now[j] by {
                if j < 2 * i {
                    assert(bytes@.take(i as int)[j / 2] == bytes@[j / 2]);
                    assert(before[j] == hex_text(bytes@.take(i as int))[j]);
                } else {
                    assert(j / 2 == i);
                }
            }
        }
        i = i + 1;
    }
    assert(bytes@.take(i as int) =~= bytes@);
    out
}

/// A number in decimal digits.
pub open spec fn decimal_text(n: nat) -> Seq<char>
    decreases n,
{
    if n < 10 {
        seq!["0123456789"@[n as int]]
    } else {
        decimal_text(n / 10).push("0123456789"@[(n % 10) as int])
    }
}

/// Writes a number in decimal digits.
pub fn decimal(n: u64) -> (r: String)
    ensures
        r@ == decimal_text(n as nat),
    decreases n,
{
    proof {
        reveal_strlit("0123456789");
    }
    let mut out = if n < 10 {
        String::new()
    } else {
        decimal(n / 10)
    };
    let at = (n % 10) as usize;
    out.append("0123456789".substring_char(at, at + 1));
    assert(out@ =~= decimal_text(n as nat));
    out
}

/// The last digits of a number in hexadecimal.
pub open spec fn hex_number(n: nat, digits: nat) -> Seq<char>
    decreases digits,
{
    if digits == 0 {
        Seq::empty()
    } else {
        hex_number(n / 16, (digits - 1) as nat).push(hex_digit((n % 16) as int))
    }
}

/// Writes the last digits of a number in hexadecimal.
pub fn write_hex(n: u128, digits: usize) -> (r: String)
    ensures
        r@ == hex_number(n as nat, digits as nat),
        r@.len() == digits,
    decreases digits,
{
    if digits == 0 {
        return String::new();
    }
    let mut out = write_hex(n / 16, digits - 1);
    append_hex_digit((n % 16) as u8, &mut out);
    out
}

/// An identifier in hexadecimal digits, in groups of eight, four, four, four and twelve.
pub open spec fn id_text(id: u128) -> Seq<char> {
    let digits = hex_number(id as nat, 32);
    digits.subrange(0, 8) + "-"@ + digits.subrange(8, 12) + "-"@ + digits.subrange(12, 16) + "-"@
        + digits.subrange(16, 20) + "-"@ + digits.subrange(20, 32)
}

/// Writes an identifier.
pub fn write_id(id: u128) -> (r: String)
    ensures
        r@ == id_text(id),
{
    let digits = write_hex(id, 32);
    let digits = digits.as_str();
    let mut out = digits.substring_char(0, 8).to_owned();
    out.append("-");
    out.append(digits.substring_char(8, 12));
    out.append("-");
    out.append(digits.substring_char(12, 16));
    out.append("-");
    out.append(digits.substring_char(16, 20));
    out.append("-");
    out.append(digits.substring_char(20, 32));
    out
}

/// The text that the `Debug` of `str` writes for a text, in quotation marks.
pub uninterp spec fn quoted_text(text: Seq<char>) -> Seq<char>;

/// Formats a text with the `Debug` of `str`. Trusted: what is written depends on the text alone,
/// and `quoted_text` names it. Nothing is claimed of which characters are escaped.
#[verifier::external_body]
pub(crate) fn quoted(text: &str) -> (r: String)
    ensures
        r@ == quoted_text(text@),
{
    format!("{text:?}")
}

/// Texts with a comma between each and the next.
pub open spec fn joined(texts: Seq<Seq<char>>) -> Seq<char>
    decreases texts.len(),
{
    if texts.len() == 0 {
        Seq::empty()
    } else if texts.len() == 1 {
        texts[0]
    } else {
        joined(texts.drop_last()) + ", "@ + texts.last()
    }
}

/// The texts in a list of strings.
pub open spec fn texts(strings: Seq<String>) -> Seq<Seq<char>> {
    strings.map_values(|s: String| s@)
}

/// Joins texts with commas.
pub fn join(strings: &Vec<String>) -> (r: String)
    ensures
        r@ == joined(texts(strings@)),
{
    let ghost all = texts(strings@);
    let mut out = String::new();
    let mut i: usize = 0;
    assert(out@ =~= joined(all.take(0)));
    while i < strings.len()
        invariant
            i <= strings.len(),
            all == texts(strings@),
            out@ == joined(all.take(i as int)),
        decreases strings.len() - i,
    {
        proof {
            assert(all.take(i + 1).drop_last() =~= all.take(i as int));
            assert(all.take(i + 1).last() == strings@[i as int]@);
            assert(all.take(i + 1)[0] == all[0]);
        }
        if i > 0 {
            out.append(", ");
        }
        out.append(strings[i].as_str());
        assert(out@ =~= joined(all.take(i + 1)));
        i = i + 1;
    }
    assert(all.take(i as int) =~= all);
    out
}

/// Whether one text comes before another: by the first character in which they differ, a
/// beginning before what goes on. Texts compare in this order by their UTF-8 bytes too.
pub open spec fn text_before(a: Seq<char>, b: Seq<char>) -> bool
    decreases b.len(),
{
    if b.len() == 0 {
        false
    } else if a.len() == 0 {
        true
    } else if a[0] != b[0] {
        a[0] < b[0]
    } else {
        text_before(a.drop_first(), b.drop_first())
    }
}

pub fn comes_before(a: &str, b: &str) -> (r: bool)
    ensures
        r == text_before(a@, b@),
{
    let a_count = a.unicode_len();
    let b_count = b.unicode_len();
    let mut i: usize = 0;
    assert(a@.skip(0) =~= a@);
    assert(b@.skip(0) =~= b@);
    while i < a_count && i < b_count
        invariant
            i <= a_count == a@.len(),
            i <= b_count == b@.len(),
            text_before(a@, b@) == text_before(a@.skip(i as int), b@.skip(i as int)),
        decreases a_count - i,
    {
        let x = a.get_char(i);
        let y = b.get_char(i);
        proof {
            assert(a@.skip(i as int)[0] == x);
            assert(b@.skip(i as int)[0] == y);
            assert(a@.skip(i as int).drop_first() =~= a@.skip(i + 1));
            assert(b@.skip(i as int).drop_first() =~= b@.skip(i + 1));
        }
        if x != y {
            return x < y;
        }
        i = i + 1;
    }
    i < b_count
}

} // verus!
