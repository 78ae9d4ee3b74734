//! What texts say: their order, their numbers, and what truncation keeps.

use vstd::prelude::*;
use vstd::utf8::encode_utf8;

use crate::text::bytes_lt;
use crate::text::contains_text;
use crate::text::copy_opt_text;
use crate::text::copy_texts;
use crate::text::decimal;
use crate::text::decimal_text;
use crate::text::law_truncation_keeps_longest_prefix;
use crate::text::same_opt_text;
use crate::text::same_texts;
use crate::text::signed_decimal;
use crate::text::text_less;
use crate::text::text_lt;
use crate::text::texts;
use crate::text::truncate_utf8;
use crate::text::truncated;

verus! {

/// Whether `a` and `b` agree before position `n`, where `a` ends or has the
/// smaller byte.
pub open spec fn parts_at(a: Seq<u8>, b: Seq<u8>, n: int) -> bool {
    &&& 0 <= n <= a.len() && n < b.len()
    &&& forall|i: int| 0 <= i < n ==> #[trigger] a[i] == b[i]
    &&& n < a.len() ==> a[n] < b[n]
}

proof fn lemma_parts(a: Seq<u8>, b: Seq<u8>)
    ensures
        bytes_lt(a, b) <==> exists|n: int| parts_at(a, b, n),
    decreases a.len(),
{
    if b.len() == 0 {
    } else if a.len() == 0 || a[0] < b[0] {
        assert(parts_at(a, b, 0));
    } else if a[0] > b[0] {
        assert forall|n: int| !parts_at(a, b, n) by {
            if parts_at(a, b, n) && n > 0 {
                assert(a[0] == b[0]);
            }
        }
    } else {
        let x = a.drop_first();
        let y = b.drop_first();
        lemma_parts(x, y);
        if bytes_lt(x, y) {
            let n = choose|n: int| parts_at(x, y, n);
            assert forall|i: int| 0 <= i < n + 1 implies #[trigger] a[i] == b[i] by {
                if i > 0 {
                    assert(x[i - 1] == y[i - 1]);
                }
            }
            assert(parts_at(a, b, n + 1));
        }
        if exists|n: int| parts_at(a, b, n) {
            let n = choose|n: int| parts_at(a, b, n);
            assert forall|i: int| 0 <= i < n - 1 implies #[trigger] x[i] == y[i] by {
                assert(a[i + 1] == b[i + 1]);
            }
            assert(parts_at(x, y, n - 1));
        }
    }
}

/// A text precedes another exactly when their bytes part that way.
pub proof fn lemma_text_parts(a: Seq<char>, b: Seq<char>)
    ensures
        text_lt(a, b) <==> exists|n: int| parts_at(encode_utf8(a), encode_utf8(b), n),
{
    lemma_parts(encode_utf8(a), encode_utf8(b));
}

/// One text precedes another exactly when, at the first byte where they part, the
/// first text ends or has the smaller byte.
pub proof fn law_texts_are_ordered_by_their_bytes(a: &str, b: &str, less: bool)
    requires
        call_ensures(text_less, (a, b), less),
    ensures
        less <==> exists|n: int| parts_at(encode_utf8(a@), encode_utf8(b@), n),
        less <==> text_lt(a@, b@),
{
    lemma_parts(encode_utf8(a@), encode_utf8(b@));
}

/// The number that a run of decimal digits stands for.
pub open spec fn number_of(digits: Seq<char>) -> int {
    digits.fold_left(0int, |value: int, c: char| 10 * value + (c as int - '0' as int))
}

proof fn lemma_digits(value: nat)
    ensures
        number_of(decimal_text(value)) == value,
        decimal_text(value).len() > 0,
        forall|i: int|
            0 <= i < decimal_text(value).len() ==> '0' <= #[trigger] decimal_text(value)[i] <= '9',
        decimal_text(value).len() > 1 ==> decimal_text(value)[0] != '0',
        value > 0 ==> decimal_text(value)[0] != '0',
    decreases value,
{
    reveal_with_fuel(Seq::fold_left, 2);
    let text = decimal_text(value);
    if value >= 10 {
        let front = decimal_text(value / 10);
        lemma_digits(value / 10);
        assert(text.drop_last() =~= front);
        assert forall|i: int| 0 <= i < text.len() implies '0' <= #[trigger] text[i] <= '9' by {
            if i < front.len() {
                assert(text[i] == front[i]);
            }
        }
        assert(text[0] == front[0]);
    } else {
        assert(text.drop_last() =~= Seq::empty());
    }
}

/// A number is written with the decimal digits that stand for it, without leading
/// zeroes, and a negative one after a minus sign.
pub proof fn law_numbers_are_written_in_decimal(
    value: u64,
    text: String,
    signed: i64,
    signed_text: String,
)
    requires
        call_ensures(decimal, (value,), text),
        call_ensures(signed_decimal, (signed,), signed_text),
    ensures
        number_of(text@) == value,
        text@.len() > 0,
        forall|i: int| 0 <= i < text@.len() ==> '0' <= #[trigger] text@[i] <= '9',
        text@.len() > 1 ==> text@[0] != '0',
        signed >= 0 ==> number_of(signed_text@) == signed && signed_text@[0] != '-',
        signed < 0 ==> signed_text@[0] == '-' && number_of(signed_text@.drop_first()) == -signed
            && signed_text@[1] != '0',
{
    reveal_strlit("-");
    lemma_digits(value as nat);
    if signed < 0 {
        lemma_digits((-signed) as nat);
        assert(signed_text@.drop_first() =~= decimal_text((-signed) as nat));
        assert(signed_text@[1] == signed_text@.drop_first()[0]);
    } else {
        lemma_digits(signed as nat);
        assert('0' <= signed_text@[0]);
    }
}

/// Numbers that are written alike are the same.
pub proof fn law_distinct_numbers_are_written_differently(a: nat, b: nat)
    requires
        decimal_text(a) == decimal_text(b),
    ensures
        a == b,
{
    lemma_digits(a);
    lemma_digits(b);
}

/// A truncated text is a beginning of the text that takes at most the bytes
/// allowed, and any longer beginning takes more; a text that fits is kept whole.
pub proof fn law_truncation_keeps_what_fits(value: &str, max_bytes: usize, kept: String)
    requires
        call_ensures(truncate_utf8, (value, max_bytes), kept),
    ensures
        kept@.is_prefix_of(value@),
        encode_utf8(kept@).len() <= max_bytes,
        encode_utf8(value@).len() <= max_bytes ==> kept@ == value@,
        forall|n: int|
            kept@.len() < n <= value@.len() ==> encode_utf8(#[trigger] value@.take(n)).len()
                > max_bytes,
        kept@ == truncated(value@, max_bytes as nat),
{
    law_truncation_keeps_longest_prefix(value@, max_bytes as nat);
}

/// Optional texts are the same when both are missing or both say the same, and a
/// copy says what the original says.
pub proof fn law_optional_texts_are_compared_whole(
    a: Option<String>,
    b: Option<String>,
    same: bool,
    copy: Option<String>,
)
    requires
        call_ensures(same_opt_text, (&a, &b), same),
        call_ensures(copy_opt_text, (&a,), copy),
    ensures
        same <==> (a is None && b is None) || (a is Some && b is Some && a->0@ == b->0@),
        copy is Some <==> a is Some,
        a is Some ==> copy->0@ == a->0@,
{
}

/// Lists of texts are the same when they agree at every position, a copy agrees
/// with the original, and a list contains what stands at one of its positions.
pub proof fn law_lists_are_compared_whole(
    a: Vec<String>,
    b: Vec<String>,
    same: bool,
    copy: Vec<String>,
    name: &str,
    found: bool,
)
    requires
        call_ensures(same_texts, (&a, &b), same),
        call_ensures(copy_texts, (&a,), copy),
        call_ensures(contains_text, (&a, name), found),
    ensures
        same <==> a@.len() == b@.len() && forall|i: int|
            0 <= i < a@.len() ==> (#[trigger] a@[i])@ == b@[i]@,
        copy@.len() == a@.len(),
        forall|i: int| 0 <= i < a@.len() ==> (#[trigger] copy@[i])@ == a@[i]@,
        found <==> exists|i: int| 0 <= i < a@.len() && (#[trigger] a@[i])@ == name@,
{
    let left = texts(a@);
    let right = texts(b@);
    assert(left.len() == a@.len() && right.len() == b@.len());
    assert forall|i: int| 0 <= i < a@.len() implies left[i] == (#[trigger] a@[i])@ by {}
    if same {
        assert forall|i: int| 0 <= i < a@.len() implies (#[trigger] a@[i])@ == b@[i]@ by {
            assert(left[i] == right[i]);
        }
    } else if a@.len() == b@.len() && forall|i: int|
        0 <= i < a@.len() ==> (#[trigger] a@[i])@ == b@[i]@ {
        assert forall|i: int| 0 <= i < left.len() implies left[i] == right[i] by {
            assert(a@[i]@ == b@[i]@);
        }
        assert(left =~= right);
    }
    assert(texts(copy@).len() == copy@.len());
    assert forall|i: int| 0 <= i < a@.len() implies (#[trigger] copy@[i])@ == a@[i]@ by {
        assert(texts(copy@)[i] == left[i]);
    }
    if found {
        let i = choose|i: int| 0 <= i < left.len() && left[i] == name@;
        assert(a@[i]@ == name@);
    }
    if exists|i: int| 0 <= i < a@.len() && (#[trigger] a@[i])@ == name@ {
        let i = choose|i: int| 0 <= i < a@.len() && (#[trigger] a@[i])@ == name@;
        assert(left[i] == name@);
    }
}

} // verus!
