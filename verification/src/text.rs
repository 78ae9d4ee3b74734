//! Text measured and ordered by its UTF-8 bytes.

use vstd::prelude::*;
use vstd::string::StringExecFns;
use vstd::utf8::*;

verus! {

/// A value that callers may pass where text is stored.
pub trait IntoText: Sized {
    /// The characters of the value.
    spec fn characters(&self) -> Seq<char>;

    /// Converts the value into an owned string.
    fn into_text(self) -> (text: String)
        ensures
            text@ == self.characters(),
    ;
}

impl IntoText for String {
    open spec fn characters(&self) -> Seq<char> {
        self@
    }

    fn into_text(self) -> (text: String) {
        self
    }
}

impl IntoText for &str {
    open spec fn characters(&self) -> Seq<char> {
        self@
    }

    fn into_text(self) -> (text: String) {
        self.to_owned()
    }
}

/// Number of UTF-8 bytes that `text` takes.
pub open spec fn byte_len(text: Seq<char>) -> nat {
    encode_utf8(text).len()
}

/// Views of a sequence of strings.
pub open spec fn texts(values: Seq<String>) -> Seq<Seq<char>> {
    Seq::new(values.len(), |i: int| values[i]@)
}

/// View of an optional string.
pub open spec fn opt_text(value: Option<String>) -> Option<Seq<char>> {
    match value {
        Some(text) => Some(text@),
        None => None,
    }
}

/// Lexicographic order of byte sequences.
pub open spec fn bytes_lt(a: Seq<u8>, b: Seq<u8>) -> bool
    decreases a.len(),
{
    if b.len() == 0 {
        false
    } else if a.len() == 0 {
        true
    } else if a[0] != b[0] {
        a[0] < b[0]
    } else {
        bytes_lt(a.drop_first(), b.drop_first())
    }
}

/// Order of strings: lexicographic over their UTF-8 bytes.
pub open spec fn text_lt(a: Seq<char>, b: Seq<char>) -> bool {
    bytes_lt(encode_utf8(a), encode_utf8(b))
}

proof fn lemma_bytes_lt_irreflexive(a: Seq<u8>)
    ensures
        !bytes_lt(a, a),
    decreases a.len(),
{
    if a.len() > 0 {
        lemma_bytes_lt_irreflexive(a.drop_first());
    }
}

proof fn lemma_bytes_lt_transitive(a: Seq<u8>, b: Seq<u8>, c: Seq<u8>)
    requires
        bytes_lt(a, b),
        bytes_lt(b, c),
    ensures
        bytes_lt(a, c),
    decreases a.len(),
{
    if a.len() > 0 && a[0] == b[0] && b[0] == c[0] {
        lemma_bytes_lt_transitive(a.drop_first(), b.drop_first(), c.drop_first());
    }
}

proof fn lemma_bytes_lt_total(a: Seq<u8>, b: Seq<u8>)
    ensures
        bytes_lt(a, b) || bytes_lt(b, a) || a == b,
    decreases a.len(),
{
    if a.len() > 0 && b.len() > 0 && a[0] == b[0] {
        lemma_bytes_lt_total(a.drop_first(), b.drop_first());
        if a.drop_first() == b.drop_first() {
            assert(a =~= seq![a[0]] + a.drop_first());
            assert(b =~= seq![b[0]] + b.drop_first());
        }
    } else if a.len() == 0 && b.len() == 0 {
        assert(a =~= b);
    }
}

/// No string precedes itself.
pub proof fn lemma_text_lt_irreflexive(a: Seq<char>)
    ensures
        !text_lt(a, a),
{
    lemma_bytes_lt_irreflexive(encode_utf8(a));
}

/// The order of strings is transitive.
pub proof fn lemma_text_lt_transitive(a: Seq<char>, b: Seq<char>, c: Seq<char>)
    requires
        text_lt(a, b),
        text_lt(b, c),
    ensures
        text_lt(a, c),
{
    lemma_bytes_lt_transitive(encode_utf8(a), encode_utf8(b), encode_utf8(c));
}

/// Distinct strings have distinct bytes.
pub proof fn lemma_encoding_injective(a: Seq<char>, b: Seq<char>)
    requires
        encode_utf8(a) == encode_utf8(b),
    ensures
        a == b,
{
    encode_utf8_decode_utf8(a);
    encode_utf8_decode_utf8(b);
}

/// Of two distinct strings one precedes the other.
pub proof fn lemma_text_lt_total(a: Seq<char>, b: Seq<char>)
    ensures
        text_lt(a, b) || text_lt(b, a) || a == b,
{
    lemma_bytes_lt_total(encode_utf8(a), encode_utf8(b));
    if encode_utf8(a) == encode_utf8(b) {
        lemma_encoding_injective(a, b);
    }
}

/// Returns the number of UTF-8 bytes of `text`.
pub fn utf8_len(text: &str) -> (len: usize)
    ensures
        len == byte_len(text@),
{
    text.as_bytes().len()
}

/// Whether `a` precedes `b` in the order of strings.
pub fn text_less(a: &str, b: &str) -> (less: bool)
    ensures
        less == text_lt(a@, b@),
{
    let left = a.as_bytes();
    let right = b.as_bytes();
    let mut i: usize = 0;
    proof {
        assert(left@.skip(0) =~= left@);
        assert(right@.skip(0) =~= right@);
    }
    while i < left.len() && i < right.len()
        invariant
            i <= left@.len(),
            i <= right@.len(),
            left@ == encode_utf8(a@),
            right@ == encode_utf8(b@),
            text_lt(a@, b@) == bytes_lt(left@.skip(i as int), right@.skip(i as int)),
        decreases left@.len() - i,
    {
        proof {
            assert(left@.skip(i as int).drop_first() =~= left@.skip(i + 1));
            assert(right@.skip(i as int).drop_first() =~= right@.skip(i + 1));
        }
        if left[i] != right[i] {
            return left[i] < right[i];
        }
        i = i + 1;
    }
    i < right.len()
}

/// Whether both strings hold the same characters.
pub fn same_text(a: &str, b: &str) -> (same: bool)
    ensures
        same == (a@ == b@),
{
    let left = a.as_bytes();
    let right = b.as_bytes();
    if left.len() != right.len() {
        return false;
    }
    let mut i: usize = 0;
    while i < left.len()
        invariant
            i <= left@.len(),
            left@ == encode_utf8(a@),
            right@ == encode_utf8(b@),
            left@.len() == right@.len(),
            forall|k: int| 0 <= k < i ==> left@[k] == right@[k],
        decreases left@.len() - i,
    {
        if left[i] != right[i] {
            return false;
        }
        i = i + 1;
    }
    proof {
        assert(left@ =~= right@);
        lemma_encoding_injective(a@, b@);
    }
    true
}

/// Whether both optional strings are equal.
pub fn same_opt_text(a: &Option<String>, b: &Option<String>) -> (same: bool)
    ensures
        same == (opt_text(*a) == opt_text(*b)),
{
    match (a, b) {
        (Some(x), Some(y)) => same_text(x.as_str(), y.as_str()),
        (None, None) => true,
        _ => false,
    }
}

/// Copies an optional string.
pub fn copy_opt_text(value: &Option<String>) -> (res: Option<String>)
    ensures
        opt_text(res) == opt_text(*value),
{
    match value {
        Some(text) => Some(text.clone()),
        None => None,
    }
}

/// Copies a list of strings.
pub fn copy_texts(values: &Vec<String>) -> (res: Vec<String>)
    ensures
        texts(res@) == texts(values@),
{
    let mut res: Vec<String> = Vec::new();
    let mut i: usize = 0;
    while i < values.len()
        invariant
            i <= values@.len(),
            res@.len() == i,
            forall|k: int| 0 <= k < i ==> res@[k]@ == values@[k]@,
        decreases values@.len() - i,
    {
        res.push(values[i].clone());
        i = i + 1;
    }
    proof {
        assert(texts(res@) =~= texts(values@));
    }
    res
}

/// Whether both lists hold the same strings in the same order.
pub fn same_texts(a: &Vec<String>, b: &Vec<String>) -> (same: bool)
    ensures
        same == (texts(a@) == texts(b@)),
{
    if a.len() != b.len() {
        proof {
            assert(texts(a@).len() != texts(b@).len());
        }
        return false;
    }
    let mut i: usize = 0;
    while i < a.len()
        invariant
            i <= a@.len(),
            a@.len() == b@.len(),
            forall|k: int| 0 <= k < i ==> a@[k]@ == b@[k]@,
        decreases a@.len() - i,
    {
        if !same_text(a[i].as_str(), b[i].as_str()) {
            proof {
                assert(texts(a@)[i as int] != texts(b@)[i as int]);
            }
            return false;
        }
        i = i + 1;
    }
    proof {
        assert(texts(a@) =~= texts(b@));
    }
    true
}

/// Whether `name` occurs in `values`.
pub fn contains_text(values: &Vec<String>, name: &str) -> (found: bool)
    ensures
        found == texts(values@).contains(name@),
{
    let mut i: usize = 0;
    while i < values.len()
        invariant
            i <= values@.len(),
            forall|k: int| 0 <= k < i ==> values@[k]@ != name@,
        decreases values@.len() - i,
    {
        if same_text(values[i].as_str(), name) {
            proof {
                assert(texts(values@)[i as int] == name@);
            }
            return true;
        }
        i = i + 1;
    }
    false
}

/// Decimal digits of `value`, most significant first.
pub open spec fn decimal_text(value: nat) -> Seq<char>
    decreases value,
{
    if value < 10 {
        seq![digit_char(value)]
    } else {
        decimal_text(value / 10).push(digit_char(value % 10))
    }
}

/// The character of one decimal digit.
pub open spec fn digit_char(digit: nat) -> char {
    if digit == 0 {
        '0'
    } else if digit == 1 {
        '1'
    } else if digit == 2 {
        '2'
    } else if digit == 3 {
        '3'
    } else if digit == 4 {
        '4'
    } else if digit == 5 {
        '5'
    } else if digit == 6 {
        '6'
    } else if digit == 7 {
        '7'
    } else if digit == 8 {
        '8'
    } else {
        '9'
    }
}

fn digit_text(digit: u64) -> (text: &'static str)
    requires
        digit < 10,
    ensures
        text@ == seq![digit_char(digit as nat)],
{
    proof {
        reveal_strlit("0");
        reveal_strlit("1");
        reveal_strlit("2");
        reveal_strlit("3");
        reveal_strlit("4");
        reveal_strlit("5");
        reveal_strlit("6");
        reveal_strlit("7");
        reveal_strlit("8");
        reveal_strlit("9");
    }
    if digit == 0 {
        "0"
    } else if digit == 1 {
        "1"
    } else if digit == 2 {
        "2"
    } else if digit == 3 {
        "3"
    } else if digit == 4 {
        "4"
    } else if digit == 5 {
        "5"
    } else if digit == 6 {
        "6"
    } else if digit == 7 {
        "7"
    } else if digit == 8 {
        "8"
    } else {
        "9"
    }
}

/// Writes `value` in decimal.
pub fn decimal(value: u64) -> (text: String)
    ensures
        text@ == decimal_text(value as nat),
    decreases value,
{
    if value < 10 {
        digit_text(value).to_owned()
    } else {
        let mut text = decimal(value / 10);
        text.append(digit_text(value % 10));
        proof {
            assert(text@ =~= decimal_text((value / 10) as nat).push(digit_char((value % 10) as nat)));
        }
        text
    }
}

/// Decimal text of a signed number.
pub open spec fn signed_text(value: int) -> Seq<char> {
    if value < 0 {
        "-"@ + decimal_text((-value) as nat)
    } else {
        decimal_text(value as nat)
    }
}

/// Writes a signed number in decimal.
pub fn signed_decimal(value: i64) -> (text: String)
    ensures
        text@ == signed_text(value as int),
{
    if value < 0 {
        let magnitude: u64 = if value == i64::MIN {
            9_223_372_036_854_775_808
        } else {
            (-value) as u64
        };
        join2("-", decimal(magnitude).as_str())
    } else {
        decimal(value as u64)
    }
}

/// Joins three pieces of text.
pub fn join3(a: &str, b: &str, c: &str) -> (text: String)
    ensures
        text@ == a@ + b@ + c@,
{
    let mut text: String = a.to_owned();
    text.append(b);
    text.append(c);
    text
}

/// Joins two pieces of text.
pub fn join2(a: &str, b: &str) -> (text: String)
    ensures
        text@ == a@ + b@,
{
    let mut text: String = a.to_owned();
    text.append(b);
    text
}

/// What is left of `text` when whole characters are dropped from its end until
/// it takes at most `limit` bytes.
pub open spec fn truncated(text: Seq<char>, limit: nat) -> Seq<char>
    decreases text.len(),
{
    if byte_len(text) <= limit || text.len() == 0 {
        text
    } else {
        truncated(text.drop_last(), limit)
    }
}

/// Whether `prefix` is the longest run of whole characters from the start of
/// `text` that takes at most `limit` bytes.
pub open spec fn is_longest_prefix(prefix: Seq<char>, text: Seq<char>, limit: nat) -> bool {
    &&& prefix.len() <= text.len()
    &&& prefix == text.take(prefix.len() as int)
    &&& byte_len(prefix) <= limit
    &&& forall|n: int|
        prefix.len() < n <= text.len() ==> byte_len(#[trigger] text.take(n)) > limit
}

/// Truncation keeps the longest prefix of whole characters that fits.
pub proof fn law_truncation_keeps_longest_prefix(text: Seq<char>, limit: nat)
    ensures
        is_longest_prefix(truncated(text, limit), text, limit),
        byte_len(text) <= limit ==> truncated(text, limit) == text,
    decreases text.len(),
{
    if byte_len(text) <= limit || text.len() == 0 {
        assert(text.take(text.len() as int) =~= text);
    } else {
        let shorter = text.drop_last();
        law_truncation_keeps_longest_prefix(shorter, limit);
        let kept = truncated(text, limit);
        assert(shorter.take(kept.len() as int) =~= text.take(kept.len() as int));
        assert forall|n: int| kept.len() < n <= text.len() implies byte_len(
            #[trigger] text.take(n),
        ) > limit by {
            if n < text.len() {
                assert(text.take(n) =~= shorter.take(n));
            } else {
                assert(text.take(n) =~= text);
            }
        }
    }
}

proof fn lemma_longest_prefix_unique(a: Seq<char>, b: Seq<char>, text: Seq<char>, limit: nat)
    requires
        is_longest_prefix(a, text, limit),
        is_longest_prefix(b, text, limit),
    ensures
        a == b,
{
    if a.len() < b.len() {
        assert(byte_len(text.take(b.len() as int)) > limit);
    } else if b.len() < a.len() {
        assert(byte_len(text.take(a.len() as int)) > limit);
    }
}

/// The bytes of the first `n` characters end at a character boundary, and more
/// characters take more bytes.
proof fn lemma_take_is_boundary(text: Seq<char>, n: int)
    requires
        0 <= n <= text.len(),
    ensures
        is_char_boundary(encode_utf8(text), byte_len(text.take(n)) as int),
        byte_len(text.take(n)) <= byte_len(text),
        n < text.len() ==> byte_len(text.take(n)) < byte_len(text),
    decreases text.len(),
{
    let bytes = encode_utf8(text);
    encode_utf8_valid_utf8(text);
    if n == 0 {
        assert(text.take(0).len() == 0);
        assert(byte_len(text.take(0)) == 0);
        if text.len() > 0 {
            assert(bytes.len() > 0);
        }
    } else {
        let rest = text.drop_first();
        encode_utf8_first_scalar(text);
        assert(pop_first_scalar(bytes) =~= encode_utf8(rest));
        lemma_take_is_boundary(rest, n - 1);
        let part = text.take(n);
        assert(part.drop_first() =~= rest.take(n - 1));
        assert(part[0] == text[0]);
        assert(byte_len(part) == encode_scalar(text[0] as u32).len() + byte_len(rest.take(n - 1)));
        assert(byte_len(text) == encode_scalar(text[0] as u32).len() + byte_len(rest));
    }
}

/// Cuts `value` at a character boundary so that it takes at most `max_bytes`
/// bytes.
pub fn truncate_utf8(value: &str, max_bytes: usize) -> (kept: String)
    ensures
        kept@ == truncated(value@, max_bytes as nat),
{
    let ghost bytes = encode_utf8(value@);
    if utf8_len(value) <= max_bytes {
        return value.to_owned();
    }
    proof {
        encode_utf8_valid_utf8(value@);
        is_char_boundary_start_end_of_seq(bytes);
    }
    let mut end: usize = max_bytes;
    while !value.is_char_boundary(end)
        invariant
            bytes == encode_utf8(value@),
            valid_utf8(bytes),
            is_char_boundary(bytes, 0),
            end <= max_bytes < bytes.len(),
            forall|k: int| end < k <= max_bytes ==> !is_char_boundary(bytes, k),
        decreases end,
    {
        end = end - 1;
    }
    let (head, _tail) = value.split_at(end);
    proof {
        let front = bytes.subrange(0, end as int);
        let back = bytes.subrange(end as int, bytes.len() as int);
        decode_utf8_split(bytes, end as int);
        encode_utf8_decode_utf8(value@);
        encode_utf8_decode_utf8(head@);
        assert(value@ == head@ + decode_utf8(back));
        assert(head@ =~= value@.take(head@.len() as int));
        assert forall|n: int| head@.len() < n <= value@.len() implies byte_len(
            #[trigger] value@.take(n),
        ) > max_bytes by {
            lemma_take_is_boundary(value@, n);
            lemma_take_is_boundary(value@.take(n), head@.len() as int);
            assert(value@.take(n).take(head@.len() as int) =~= head@);
        }
        law_truncation_keeps_longest_prefix(value@, max_bytes as nat);
        lemma_longest_prefix_unique(head@, truncated(value@, max_bytes as nat), value@, max_bytes as nat);
    }
    head.to_owned()
}

} // verus!
