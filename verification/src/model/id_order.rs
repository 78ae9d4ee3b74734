//! The text of identifiers sorts as the identifiers do.

use vstd::arithmetic::div_mod::lemma_div_denominator;
use vstd::arithmetic::div_mod::lemma_div_is_ordered;
use vstd::arithmetic::power::lemma_pow0;
use vstd::arithmetic::power::lemma_pow1;
use vstd::arithmetic::power::lemma_pow_adds;
use vstd::arithmetic::power::lemma_pow_positive;
use vstd::arithmetic::power::pow;
use vstd::prelude::*;
use vstd::utf8::encode_utf8;
use vstd::utf8::is_ascii_chars;
use vstd::utf8::is_ascii_chars_encode_utf8;

use super::task_id::hex_char;
use super::task_id::hex_digit_at;
use super::task_id::text_position;
use super::task_id::uuid_text;
use super::task_id::TaskId;
use crate::text::bytes_lt;
use crate::text::lemma_text_lt_irreflexive;
use crate::text::lemma_text_lt_transitive;
use crate::text::text_lt;

verus! {

/// The number that the first `count` of the 32 hexadecimal digits of `value`
/// spell.
spec fn leading(value: u128, count: int) -> int {
    value as int / pow(16, (32 - count) as nat)
}

proof fn lemma_leading_step(value: u128, count: int)
    requires
        1 <= count <= 32,
    ensures
        leading(value, count - 1) == leading(value, count) / 16,
        hex_digit_at(value, count - 1) == leading(value, count) % 16,
        leading(value, count) == 16 * leading(value, count - 1) + hex_digit_at(value, count - 1),
        leading(value, count) >= 0,
{
    let low = pow(16, (32 - count) as nat);
    lemma_pow_positive(16, (32 - count) as nat);
    lemma_pow_adds(16, (32 - count) as nat, 1);
    lemma_pow1(16);
    lemma_div_denominator(value as int, low, 16);
    vstd::arithmetic::div_mod::lemma_div_pos_is_pos(value as int, low);
}

proof fn lemma_leading_ends(value: u128)
    ensures
        leading(value, 32) == value,
        leading(value, 0) == 0,
{
    lemma_pow0(16);
    assert(pow(16, 32) == 0x1_0000_0000_0000_0000_0000_0000_0000_0000int) by {
        lemma_pow1(16);
        lemma_pow_adds(16, 1, 1);
        assert(pow(16, 2) == 0x100);
        lemma_pow_adds(16, 2, 2);
        assert(pow(16, 4) == 0x1_0000);
        lemma_pow_adds(16, 4, 4);
        assert(pow(16, 8) == 0x1_0000_0000);
        lemma_pow_adds(16, 8, 8);
        assert(pow(16, 16) == 0x1_0000_0000_0000_0000);
        lemma_pow_adds(16, 16, 16);
    }
    vstd::arithmetic::div_mod::lemma_basic_div(value as int, pow(16, 32));
}

proof fn lemma_leading_ordered(a: u128, b: u128, count: int)
    requires
        a <= b,
        0 <= count <= 32,
    ensures
        leading(a, count) <= leading(b, count),
{
    lemma_pow_positive(16, (32 - count) as nat);
    lemma_div_is_ordered(a as int, b as int, pow(16, (32 - count) as nat));
}

/// The first digit in which a smaller number differs from a larger one is
/// smaller.
proof fn lemma_first_digit(a: u128, b: u128, count: int) -> (at: int)
    requires
        a < b,
        1 <= count <= 32,
        leading(a, count) < leading(b, count),
    ensures
        0 <= at < count,
        hex_digit_at(a, at) < hex_digit_at(b, at),
        forall|p: int| 0 <= p < at ==> hex_digit_at(a, p) == hex_digit_at(b, p),
    decreases count,
{
    lemma_leading_step(a, count);
    lemma_leading_step(b, count);
    if leading(a, count - 1) == leading(b, count - 1) {
        lemma_equal_leading(a, b, count - 1);
        count - 1
    } else {
        lemma_leading_ordered(a, b, count - 1);
        if count == 1 {
            lemma_leading_ends(a);
            lemma_leading_ends(b);
        }
        lemma_first_digit(a, b, count - 1)
    }
}

proof fn lemma_equal_leading(a: u128, b: u128, count: int)
    requires
        0 <= count <= 32,
        leading(a, count) == leading(b, count),
    ensures
        forall|p: int| 0 <= p < count ==> hex_digit_at(a, p) == hex_digit_at(b, p),
    decreases count,
{
    if count > 0 {
        lemma_leading_step(a, count);
        lemma_leading_step(b, count);
        lemma_equal_leading(a, b, count - 1);
    }
}

/// The text index of a digit.
spec fn digit_index(position: int) -> int {
    if position < 8 {
        position
    } else if position < 12 {
        position + 1
    } else if position < 16 {
        position + 2
    } else if position < 20 {
        position + 3
    } else {
        position + 4
    }
}

proof fn lemma_text_bytes(value: u128)
    ensures
        encode_utf8(uuid_text(value)).len() == 36,
        forall|i: int|
            0 <= i < 36 ==> #[trigger] encode_utf8(uuid_text(value))[i] == uuid_text(value)[i] as u8,
{
    let text = uuid_text(value);
    assert(is_ascii_chars(text)) by {
        assert forall|i: int| 0 <= i < text.len() implies '\0' <= #[trigger] text[i]
            <= '\u{7f}' by {
            lemma_hex_char(hex_digit_at(value, text_position(i)));
        }
    }
    is_ascii_chars_encode_utf8(text);
}

proof fn lemma_hex_char(digit: nat)
    ensures
        digit < 16 ==> '0' <= hex_char(digit) <= 'f',
        forall|larger: nat|
            digit < larger < 16 ==> (hex_char(digit) as u8) < ((#[trigger] hex_char(larger)) as u8),
{
}

/// Where two byte strings first differ decides their order.
proof fn lemma_first_difference_decides(a: Seq<u8>, b: Seq<u8>, at: int)
    requires
        0 <= at < a.len(),
        at < b.len(),
        forall|k: int| 0 <= k < at ==> a[k] == b[k],
        a[at] < b[at],
    ensures
        bytes_lt(a, b),
    decreases at,
{
    if at > 0 {
        assert(a[0] == b[0]);
        assert forall|k: int| 0 <= k < at - 1 implies a.drop_first()[k] == b.drop_first()[k] by {
            assert(a[k + 1] == b[k + 1]);
        }
        lemma_first_difference_decides(a.drop_first(), b.drop_first(), at - 1);
    }
}

proof fn lemma_smaller_id_sorts_first(a: u128, b: u128)
    requires
        a < b,
    ensures
        text_lt(uuid_text(a), uuid_text(b)),
{
    lemma_leading_ends(a);
    lemma_leading_ends(b);
    let at = lemma_first_digit(a, b, 32);
    let index = digit_index(at);
    lemma_text_bytes(a);
    lemma_text_bytes(b);
    let x = encode_utf8(uuid_text(a));
    let y = encode_utf8(uuid_text(b));
    lemma_hex_char(hex_digit_at(a, at));
    lemma_hex_char(hex_digit_at(b, at));
    assert(text_position(index) == at);
    assert(x[index] < y[index]);
    assert forall|k: int| 0 <= k < index implies x[k] == y[k] by {
        if !(k == 8 || k == 13 || k == 18 || k == 23) {
            assert(0 <= text_position(k) < at);
        }
    }
    lemma_first_difference_decides(x, y, index);
}

/// Identifiers sort by their text exactly as they sort by number, so that stores
/// that keep the text list tasks in the same order as stores that keep the
/// number.
pub proof fn law_id_text_keeps_id_order(a: TaskId, b: TaskId)
    ensures
        a.0 < b.0 <==> text_lt(uuid_text(a.0), uuid_text(b.0)),
{
    if a.0 < b.0 {
        lemma_smaller_id_sorts_first(a.0, b.0);
    } else {
        lemma_text_lt_irreflexive(uuid_text(a.0));
        if b.0 < a.0 {
            lemma_smaller_id_sorts_first(b.0, a.0);
            if text_lt(uuid_text(a.0), uuid_text(b.0)) {
                lemma_text_lt_transitive(uuid_text(a.0), uuid_text(b.0), uuid_text(a.0));
            }
        }
    }
}

/// Distinct identifiers have distinct text.
pub proof fn law_id_text_is_unique(a: TaskId, b: TaskId)
    requires
        uuid_text(a.0) == uuid_text(b.0),
    ensures
        a == b,
{
    lemma_text_lt_irreflexive(uuid_text(a.0));
    law_id_text_keeps_id_order(a, b);
    law_id_text_keeps_id_order(b, a);
}

} // verus!
