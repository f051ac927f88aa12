//! Ordering of dotted release versions.
//!
//! A version text such as `v1.2.3` stands for the numbers `1, 2, 3`. One
//! leading `v` is skipped, the rest is cut at each `.`, and each piece that is a
//! decimal number within `u32` contributes that number; any other piece
//! contributes nothing. Two versions are ordered position by position from the
//! left, the shorter one continued with zeros.

use crate::text::characters;
use vstd::prelude::*;
use vstd::string::StrSliceExecFns;

verus! {

/// `text` without the one `v` that may stand in front of it. A second `v`
/// stays, and belongs to the first piece.
pub open spec fn strip_marks(text: Seq<char>) -> Seq<char> {
    if text.len() > 0 && text[0] == 'v' {
        text.skip(1)
    } else {
        text
    }
}

/// How many characters of `text` stand before its first `.`.
pub open spec fn piece_len(text: Seq<char>) -> nat
    decreases text.len(),
{
    if text.len() == 0 || text[0] == '.' {
        0
    } else {
        1 + piece_len(text.skip(1))
    }
}

pub open spec fn is_digit(c: char) -> bool {
    '0' <= c && c <= '9'
}

pub open spec fn digit_value(c: char) -> int {
    c as int - '0' as int
}

pub open spec fn all_digits(digits: Seq<char>) -> bool {
    forall|i: int| 0 <= i < digits.len() ==> is_digit(#[trigger] digits[i])
}

/// The number that a run of decimal digits denotes, most significant first.
pub open spec fn digits_value(digits: Seq<char>) -> int
    decreases digits.len(),
{
    if digits.len() == 0 {
        0
    } else {
        10 * digits_value(digits.drop_last()) + digit_value(digits.last())
    }
}

/// A piece may carry a single `+` in front of its digits.
pub open spec fn unsigned_digits(piece: Seq<char>) -> Seq<char> {
    if piece.len() > 0 && piece[0] == '+' {
        piece.skip(1)
    } else {
        piece
    }
}

/// The number a piece contributes: it needs at least one digit, nothing but
/// digits behind the optional `+`, and a value that fits in `u32`.
pub open spec fn piece_value(piece: Seq<char>) -> Option<u32> {
    let digits = unsigned_digits(piece);
    if digits.len() > 0 && all_digits(digits) && digits_value(digits) <= u32::MAX {
        Some(digits_value(digits) as u32)
    } else {
        None
    }
}

/// What a piece adds to the numbers of a version: its value, or nothing.
pub open spec fn piece_number(piece: Seq<char>) -> Seq<u32> {
    match piece_value(piece) {
        Some(value) => seq![value],
        None => Seq::empty(),
    }
}

/// The numbers of the pieces of `text`, in order, pieces without a number left out.
pub open spec fn piece_numbers(text: Seq<char>) -> Seq<u32>
    decreases text.len(),
{
    let n = piece_len(text) as int;
    if n < text.len() {
        piece_number(text.take(n)) + piece_numbers(text.skip(n + 1))
    } else {
        piece_number(text.take(n))
    }
}

/// The numbers a version text stands for.
pub open spec fn version_numbers(text: Seq<char>) -> Seq<u32> {
    piece_numbers(strip_marks(text))
}

/// The number at position `i`, zero beyond the end.
pub open spec fn component(numbers: Seq<u32>, i: int) -> int {
    if 0 <= i < numbers.len() {
        numbers[i] as int
    } else {
        0
    }
}

pub open spec fn agree_before(a: Seq<u32>, b: Seq<u32>, i: int) -> bool {
    forall|j: int| 0 <= j < i ==> component(a, j) == component(b, j)
}

/// `latest` exceeds `current` at position `i`, and they agree on everything before it.
pub open spec fn exceeds_at(current: Seq<u32>, latest: Seq<u32>, i: int) -> bool {
    &&& 0 <= i
    &&& component(latest, i) > component(current, i)
    &&& agree_before(current, latest, i)
}

/// `latest` is a later release than `current`.
pub open spec fn newer_than(current: Seq<u32>, latest: Seq<u32>) -> bool {
    exists|i: int| exceeds_at(current, latest, i)
}

/// Both stand for the same release: equal once continued with zeros.
pub open spec fn same_release(a: Seq<u32>, b: Seq<u32>) -> bool {
    forall|i: int| 0 <= i ==> component(a, i) == component(b, i)
}

proof fn lemma_piece_len(text: Seq<char>, n: int)
    requires
        0 <= n <= text.len(),
        forall|j: int| 0 <= j < n ==> text[j] != '.',
        n == text.len() || text[n] == '.',
    ensures
        piece_len(text) == n,
    decreases n,
{
    if n > 0 {
        lemma_piece_len(text.skip(1), n - 1);
    }
}

proof fn lemma_digits_value_grows(digits: Seq<char>, k: int)
    requires
        all_digits(digits),
        0 <= k <= digits.len(),
    ensures
        0 <= digits_value(digits.take(k)) <= digits_value(digits),
    decreases digits.len(),
{
    if k == digits.len() {
        assert(digits.take(k) =~= digits);
        if k > 0 {
            lemma_digits_value_grows(digits.drop_last(), k - 1);
            assert(is_digit(digits[k - 1]));
        }
    } else {
        let front = digits.drop_last();
        assert(front.take(k) =~= digits.take(k));
        assert(forall|i: int| 0 <= i < front.len() ==> front[i] == digits[i]);
        lemma_digits_value_grows(front, k);
        lemma_digits_value_grows(front, front.len() as int);
        assert(front.take(front.len() as int) =~= front);
        assert(is_digit(digits[digits.len() - 1]));
    }
}

/// No release is later than itself.
pub proof fn newer_is_irreflexive(a: Seq<u32>)
    ensures
        !newer_than(a, a),
{
}

/// Of two releases at most one is later than the other.
pub proof fn newer_is_asymmetric(a: Seq<u32>, b: Seq<u32>)
    requires
        newer_than(a, b),
    ensures
        !newer_than(b, a),
{
    let i = choose|i: int| exceeds_at(a, b, i);
    assert forall|k: int| !exceeds_at(b, a, k) by {
        if exceeds_at(b, a, k) {
            if k < i {
                assert(component(a, k) == component(b, k));
            } else if i < k {
                assert(component(b, i) == component(a, i));
            }
        }
    }
}

/// A release later than a later release is later.
pub proof fn newer_is_transitive(a: Seq<u32>, b: Seq<u32>, c: Seq<u32>)
    requires
        newer_than(a, b),
        newer_than(b, c),
    ensures
        newer_than(a, c),
{
    let i = choose|i: int| exceeds_at(a, b, i);
    let j = choose|j: int| exceeds_at(b, c, j);
    let k = if i <= j {
        i
    } else {
        j
    };
    assert forall|m: int| 0 <= m < k implies component(a, m) == component(c, m) by {
        assert(component(a, m) == component(b, m));
        assert(component(b, m) == component(c, m));
    }
    if i < j {
        assert(component(b, i) == component(c, i));
    } else if j < i {
        assert(component(a, j) == component(b, j));
    }
    assert(exceeds_at(a, c, k));
}

proof fn lemma_compare_from(a: Seq<u32>, b: Seq<u32>, i: int)
    requires
        0 <= i,
        agree_before(a, b, i),
    ensures
        newer_than(a, b) || newer_than(b, a) || same_release(a, b),
    decreases a.len() + b.len() - i,
{
    if i >= a.len() && i >= b.len() {
        assert forall|k: int| 0 <= k implies component(a, k) == component(b, k) by {
            if k < i {
                assert(component(a, k) == component(b, k));
            }
        }
    } else if component(a, i) < component(b, i) {
        assert(exceeds_at(a, b, i));
    } else if component(b, i) < component(a, i) {
        assert forall|j: int| 0 <= j < i implies component(b, j) == component(a, j) by {
            assert(component(a, j) == component(b, j));
        }
        assert(exceeds_at(b, a, i));
    } else {
        assert forall|j: int| 0 <= j < i + 1 implies component(a, j) == component(b, j) by {
            if j < i {
                assert(component(a, j) == component(b, j));
            }
        }
        lemma_compare_from(a, b, i + 1);
    }
}

/// Any two releases are ordered or the same: the order is total.
pub proof fn releases_are_comparable(a: Seq<u32>, b: Seq<u32>)
    ensures
        newer_than(a, b) || newer_than(b, a) || same_release(a, b),
        same_release(a, b) ==> !newer_than(a, b) && !newer_than(b, a),
{
    lemma_compare_from(a, b, 0);
    if same_release(a, b) {
        assert forall|k: int| !exceeds_at(a, b, k) && !exceeds_at(b, a, k) by {
            if 0 <= k {
                assert(component(a, k) == component(b, k));
            }
        }
    }
}

/// Zeros at the end of a version do not change the release it stands for.
pub proof fn trailing_zero_is_same_release(a: Seq<u32>)
    ensures
        same_release(a, a.push(0)),
{
    assert forall|i: int| 0 <= i implies component(a, i) == component(a.push(0), i) by {
        if i < a.len() {
            assert(a.push(0)[i] == a[i]);
        }
    }
}

/// The order only looks at the release: one version may stand in for another
/// version of the same release on either side.
pub proof fn same_release_is_interchangeable(a: Seq<u32>, b: Seq<u32>, c: Seq<u32>)
    requires
        same_release(a, b),
    ensures
        newer_than(a, c) == newer_than(b, c),
        newer_than(c, a) == newer_than(c, b),
{
    assert forall|k: int| exceeds_at(a, c, k) == exceeds_at(b, c, k) by {
        if 0 <= k {
            assert(component(a, k) == component(b, k));
            if agree_before(a, c, k) {
                assert forall|j: int| 0 <= j < k implies component(b, j) == component(c, j) by {
                    assert(component(a, j) == component(b, j));
                    assert(component(a, j) == component(c, j));
                }
            }
            if agree_before(b, c, k) {
                assert forall|j: int| 0 <= j < k implies component(a, j) == component(c, j) by {
                    assert(component(a, j) == component(b, j));
                    assert(component(b, j) == component(c, j));
                }
            }
        }
    }
    assert forall|k: int| exceeds_at(c, a, k) == exceeds_at(c, b, k) by {
        if 0 <= k {
            assert(component(a, k) == component(b, k));
            if agree_before(c, a, k) {
                assert forall|j: int| 0 <= j < k implies component(c, j) == component(b, j) by {
                    assert(component(a, j) == component(b, j));
                    assert(component(c, j) == component(a, j));
                }
            }
            if agree_before(c, b, k) {
                assert forall|j: int| 0 <= j < k implies component(c, j) == component(a, j) by {
                    assert(component(a, j) == component(b, j));
                    assert(component(c, j) == component(b, j));
                }
            }
        }
    }
    if newer_than(a, c) {
        let k = choose|k: int| exceeds_at(a, c, k);
        assert(exceeds_at(b, c, k));
    }
    if newer_than(b, c) {
        let k = choose|k: int| exceeds_at(b, c, k);
        assert(exceeds_at(a, c, k));
    }
    if newer_than(c, a) {
        let k = choose|k: int| exceeds_at(c, a, k);
        assert(exceeds_at(c, b, k));
    }
    if newer_than(c, b) {
        let k = choose|k: int| exceeds_at(c, b, k);
        assert(exceeds_at(c, a, k));
    }
}

proof fn lemma_piece_len_bound(text: Seq<char>)
    ensures
        piece_len(text) <= text.len(),
    decreases text.len(),
{
    if !(text.len() == 0 || text[0] == '.') {
        lemma_piece_len_bound(text.skip(1));
    }
}

proof fn lemma_no_digit_no_number(text: Seq<char>)
    requires
        forall|i: int| 0 <= i < text.len() ==> !is_digit(#[trigger] text[i]),
    ensures
        piece_numbers(text) == Seq::<u32>::empty(),
    decreases text.len(),
{
    lemma_piece_len_bound(text);
    let n = piece_len(text) as int;
    let piece = text.take(n);
    let digits = unsigned_digits(piece);
    if digits.len() > 0 {
        if piece.len() > 0 && piece[0] == '+' {
            assert(digits[0] == text[1]);
        } else {
            assert(digits[0] == text[0]);
        }
        assert(!is_digit(digits[0]));
    }
    assert(piece_number(piece) =~= Seq::<u32>::empty());
    if n < text.len() {
        let rest = text.skip(n + 1);
        assert forall|i: int| 0 <= i < rest.len() implies !is_digit(#[trigger] rest[i]) by {
            assert(rest[i] == text[i + n + 1]);
        }
        lemma_no_digit_no_number(rest);
        assert(piece_numbers(text) =~= Seq::<u32>::empty());
    }
}

/// A text without any digit stands for no numbers at all, and so for the same
/// release as the single number zero.
pub proof fn text_without_digits_is_version_zero(text: Seq<char>)
    requires
        forall|i: int| 0 <= i < text.len() ==> !is_digit(#[trigger] text[i]),
    ensures
        version_numbers(text) == Seq::<u32>::empty(),
        same_release(version_numbers(text), seq![0u32]),
{
    let k: int = if text.len() > 0 && text[0] == 'v' {
        1
    } else {
        0
    };
    let body = text.skip(k);
    assert(body =~= strip_marks(text));
    assert forall|i: int| 0 <= i < body.len() implies !is_digit(#[trigger] body[i]) by {
        assert(body[i] == text[i + k]);
    }
    lemma_no_digit_no_number(body);
    assert forall|i: int| 0 <= i implies component(Seq::<u32>::empty(), i) == component(
        seq![0u32],
        i,
    ) by {}
}

/// Reads the piece `chars[from..to]`.
fn parse_piece(chars: &Vec<char>, from: usize, to: usize) -> (value: Option<u32>)
    requires
        from <= to <= chars.len(),
    ensures
        value == piece_value(chars@.subrange(from as int, to as int)),
{
    let ghost piece = chars@.subrange(from as int, to as int);
    let start: usize = if from < to && chars[from] == '+' {
        from + 1
    } else {
        from
    };
    let ghost digits = chars@.subrange(start as int, to as int);
    assert(digits =~= unsigned_digits(piece));
    if start == to {
        return None;
    }
    let mut acc: u64 = 0;
    let mut i: usize = start;
    while i < to
        invariant
            from <= start <= i <= to <= chars.len(),
            start < to,
            piece == chars@.subrange(from as int, to as int),
            digits == chars@.subrange(start as int, to as int),
            digits == unsigned_digits(piece),
            all_digits(digits.take(i - start)),
            acc == digits_value(digits.take(i - start)),
            acc <= u32::MAX,
        decreases to - i,
    {
        let c = chars[i];
        let ghost k = i - start;
        assert(digits[k] == c);
        if !('0' <= c && c <= '9') {
            return None;
        }
        let digit: u64 = (c as u32 - '0' as u32) as u64;
        let next: u64 = acc * 10 + digit;
        proof {
            assert(digits.take(k + 1).drop_last() =~= digits.take(k));
            assert(digits.take(k + 1).last() == c);
            assert(next == digits_value(digits.take(k + 1)));
            assert forall|j: int| 0 <= j < k + 1 implies is_digit(
                #[trigger] digits.take(k + 1)[j],
            ) by {
                if j < k {
                    assert(digits.take(k)[j] == digits[j]);
                }
            }
        }
        if next > u32::MAX as u64 {
            proof {
                if all_digits(digits) {
                    lemma_digits_value_grows(digits, k + 1);
                }
            }
            return None;
        }
        acc = next;
        i += 1;
    }
    assert(digits.take(to - start) =~= digits);
    Some(acc as u32)
}

/// Finds where the one leading `v` of `chars` ends: at 1 if there is one, else at 0.
fn marks_end(chars: &Vec<char>) -> (pos: usize)
    ensures
        pos <= chars.len(),
        pos <= 1,
        strip_marks(chars@) == chars@.skip(pos as int),
{
    if chars.len() > 0 && chars[0] == 'v' {
        1
    } else {
        assert(chars@.skip(0) =~= chars@);
        0
    }
}

/// Finds where the piece that starts at `from` ends: at the next `.` or at the end.
fn piece_end(chars: &Vec<char>, from: usize) -> (end: usize)
    requires
        from <= chars.len(),
    ensures
        from <= end <= chars.len(),
        end - from == piece_len(chars@.skip(from as int)),
{
    let len = chars.len();
    let mut end: usize = from;
    while end < len && chars[end] != '.'
        invariant
            from <= end <= len,
            len == chars.len(),
            forall|j: int| from <= j < end ==> chars@[j] != '.',
        decreases len - end,
    {
        end += 1;
    }
    proof {
        lemma_piece_len(chars@.skip(from as int), end - from);
    }
    end
}

proof fn lemma_piece_numbers_unfold(chars: Seq<char>, from: int, end: int)
    requires
        0 <= from <= end <= chars.len(),
        end - from == piece_len(chars.skip(from)),
    ensures
        piece_numbers(chars.skip(from)) == if end < chars.len() {
            piece_number(chars.subrange(from, end)) + piece_numbers(chars.skip(end + 1))
        } else {
            piece_number(chars.subrange(from, end))
        },
{
    let rest = chars.skip(from);
    assert(rest.take(end - from) =~= chars.subrange(from, end));
    if end < chars.len() {
        assert(rest.skip(end - from + 1) =~= chars.skip(end + 1));
    }
}

/// Reads the numbers that `text` stands for.
pub fn parse_version(text: &str) -> (numbers: Vec<u32>)
    ensures
        numbers@ == version_numbers(text@),
{
    let chars = characters(text);
    let len = chars.len();
    let first = marks_end(&chars);
    let mut pos: usize = first;
    let mut numbers: Vec<u32> = Vec::new();
    let mut done = false;
    while !done
        invariant
            first <= pos <= len,
            len == chars.len(),
            !done ==> numbers@ + piece_numbers(chars@.skip(pos as int)) == piece_numbers(
                chars@.skip(first as int),
            ),
            done ==> numbers@ == piece_numbers(chars@.skip(first as int)),
        decreases len - pos + if done { 0int } else { 1int },
    {
        let ghost before = numbers@;
        let end = piece_end(&chars, pos);
        proof {
            lemma_piece_numbers_unfold(chars@, pos as int, end as int);
        }
        if let Some(value) = parse_piece(&chars, pos, end) {
            numbers.push(value);
        }
        let ghost head = piece_number(chars@.subrange(pos as int, end as int));
        assert(numbers@ =~= before + head);
        if end < len {
            assert(before + (head + piece_numbers(chars@.skip(end + 1))) =~= (before + head)
                + piece_numbers(chars@.skip(end + 1)));
            pos = end + 1;
        } else {
            done = true;
        }
    }
    numbers
}

/// `text` behind its one leading `v`, if it has one, as shown to a reader.
pub fn strip_version_prefix(text: &str) -> (rest: &str)
    ensures
        rest@ == strip_marks(text@),
{
    let chars = characters(text);
    let pos = marks_end(&chars);
    text.substring_char(pos, chars.len())
}

/// Decides whether the numbers `latest` stand for a later release than `current`.
pub fn newer_numbers(current: &[u32], latest: &[u32]) -> (newer: bool)
    ensures
        newer == newer_than(current@, latest@),
{
    let reach = if current.len() > latest.len() {
        current.len()
    } else {
        latest.len()
    };
    let mut i: usize = 0;
    while i < reach
        invariant
            i <= reach,
            reach >= current.len(),
            reach >= latest.len(),
            agree_before(current@, latest@, i as int),
        decreases reach - i,
    {
        let c: u32 = if i < current.len() {
            current[i]
        } else {
            0
        };
        let l: u32 = if i < latest.len() {
            latest[i]
        } else {
            0
        };
        assert(c == component(current@, i as int));
        assert(l == component(latest@, i as int));
        if l > c {
            assert(exceeds_at(current@, latest@, i as int));
            return true;
        }
        if l < c {
            assert forall|k: int| !exceeds_at(current@, latest@, k) by {
                if exceeds_at(current@, latest@, k) && k > i {
                    assert(component(current@, i as int) == component(latest@, i as int));
                }
            }
            return false;
        }
        i += 1;
    }
    assert forall|k: int| !exceeds_at(current@, latest@, k) by {
        if 0 <= k && k < reach {
            assert(component(current@, k) == component(latest@, k));
        }
    }
    false
}

/// Decides whether the version text `latest` names a later release than `current`.
///
/// Both texts are read leniently: anything that is no number is passed over, so
/// a text without any number counts as version zero.
pub fn is_newer_version(current: &str, latest: &str) -> (newer: bool)
    ensures
        newer == newer_than(version_numbers(current@), version_numbers(latest@)),
{
    let current_numbers = parse_version(current);
    let latest_numbers = parse_version(latest);
    newer_numbers(current_numbers.as_slice(), latest_numbers.as_slice())
}

} // verus!
