//! What holds of every text that is cut, trimmed, ordered or written in digits.

use vstd::prelude::*;
use vstd::utf8::encode_utf8;

use crate::text::{hex_digit, hex_text, is_space, text_before, trimmed, truncated};

verus! {

/// Cutting a text to a number of bytes keeps the longest beginning that fits: what is kept is a
/// beginning, it fits, and one character more would not.
pub proof fn law_cut_keeps_the_longest_beginning(text: Seq<char>, max: int)
    requires
        max >= 0,
    ensures
        ({
            let kept = truncated(text, max);
            &&& kept.len() <= text.len()
            &&& kept == text.take(kept.len() as int)
            &&& encode_utf8(kept).len() <= max
            &&& kept.len() < text.len() ==> encode_utf8(text.take(kept.len() as int + 1)).len() > max
            &&& encode_utf8(text).len() <= max ==> kept == text
        }),
    decreases text.len(),
{
    assert(encode_utf8(Seq::<char>::empty()).len() == 0);
    if text.len() == 0 {
        assert(text =~= Seq::<char>::empty());
        assert(text.take(0) =~= text);
    } else if encode_utf8(text).len() <= max {
        assert(text.take(text.len() as int) =~= text);
    } else {
        let init = text.drop_last();
        law_cut_keeps_the_longest_beginning(init, max);
        let kept = truncated(text, max);
        assert(init.take(kept.len() as int) =~= text.take(kept.len() as int));
        if kept.len() < init.len() {
            assert(init.take(kept.len() as int + 1) =~= text.take(kept.len() as int + 1));
        } else {
            assert(text.take(kept.len() as int + 1) =~= text);
        }
    }
}

/// Trimming takes white space from the two ends of a text, all of it, and nothing else.
pub proof fn law_trimming_takes_only_edges(text: Seq<char>) -> (edges: (Seq<char>, Seq<char>))
    ensures
        text == edges.0 + trimmed(text) + edges.1,
        forall|i: int| 0 <= i < edges.0.len() ==> is_space(#[trigger] edges.0[i]),
        forall|i: int| 0 <= i < edges.1.len() ==> is_space(#[trigger] edges.1[i]),
        trimmed(text).len() > 0 ==> !is_space(trimmed(text).first()) && !is_space(
            trimmed(text).last(),
        ),
    decreases text.len(),
{
    if text.len() == 0 {
        assert(text =~= Seq::<char>::empty() + text + Seq::<char>::empty());
        (Seq::empty(), Seq::empty())
    } else if is_space(text.first()) {
        let (lead, trail) = law_trimming_takes_only_edges(text.drop_first());
        let longer = seq![text.first()] + lead;
        assert(text =~= seq![text.first()] + text.drop_first());
        assert(text =~= longer + trimmed(text) + trail);
        (longer, trail)
    } else if is_space(text.last()) {
        let (lead, trail) = law_trimming_takes_only_edges(text.drop_last());
        assert(text =~= text.drop_last().push(text.last()));
        assert(text =~= lead + trimmed(text) + trail.push(text.last()));
        (lead, trail.push(text.last()))
    } else {
        assert(text =~= Seq::<char>::empty() + text + Seq::<char>::empty());
        (Seq::empty(), Seq::empty())
    }
}

/// Texts are ordered by the first character in which they differ, and a beginning comes before
/// what goes on.
pub proof fn law_first_difference_orders(a: Seq<char>, b: Seq<char>, at: int)
    requires
        0 <= at <= a.len(),
        at < b.len(),
        forall|i: int| 0 <= i < at ==> a[i] == b[i],
        at < a.len() ==> a[at] < b[at],
    ensures
        text_before(a, b),
        !text_before(b, a),
        !text_before(a, a),
    decreases at,
{
    no_text_before_itself(a);
    if at > 0 {
        assert forall|i: int| 0 <= i < at - 1 implies a.drop_first()[i] == b.drop_first()[i] by {
            assert(a[i + 1] == b[i + 1]);
        }
        law_first_difference_orders(a.drop_first(), b.drop_first(), at - 1);
    }
}

proof fn no_text_before_itself(a: Seq<char>)
    ensures
        !text_before(a, a),
    decreases a.len(),
{
    if a.len() > 0 {
        no_text_before_itself(a.drop_first());
    }
}

/// The sixteen digits are different.
proof fn digits_differ(m: int, n: int)
    requires
        0 <= m < 16,
        0 <= n < 16,
        hex_digit(m) == hex_digit(n),
    ensures
        m == n,
{
    reveal_strlit("0123456789abcdef");
}

/// Different bytes are written in different digits, two for each byte.
pub proof fn law_hex_is_faithful(a: Seq<u8>, b: Seq<u8>)
    ensures
        hex_text(a).len() == 2 * a.len(),
        hex_text(a) == hex_text(b) ==> a == b,
{
    if hex_text(a) == hex_text(b) {
        assert(hex_text(a).len() == 2 * a.len());
        assert(hex_text(b).len() == 2 * b.len());
        assert(a.len() == b.len());
        assert forall|i: int| 0 <= i < a.len() implies a[i] == b[i] by {
            let high = 2 * i;
            let low = 2 * i + 1;
            assert(hex_text(a)[high] == hex_digit(a[i] as int / 16));
            assert(hex_text(b)[high] == hex_digit(b[i] as int / 16));
            assert(hex_text(a)[low] == hex_digit(a[i] as int % 16));
            assert(hex_text(b)[low] == hex_digit(b[i] as int % 16));
            digits_differ(a[i] as int / 16, b[i] as int / 16);
            digits_differ(a[i] as int % 16, b[i] as int % 16);
        }
        assert(a =~= b);
    }
}

} // verus!
