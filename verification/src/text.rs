//! Text as a sequence of characters: searching, replacing, decimal numbers.

use vstd::prelude::*;

verus! {

/// `pattern` stands in `text` at index `at`.
pub open spec fn occurs_at(text: Seq<char>, pattern: Seq<char>, at: int) -> bool {
    &&& 0 <= at
    &&& at + pattern.len() <= text.len()
    &&& text.subrange(at, at + pattern.len()) == pattern
}

/// `pattern` stands somewhere in `text`.
pub open spec fn occurs_in(text: Seq<char>, pattern: Seq<char>) -> bool {
    exists|at: int| occurs_at(text, pattern, at)
}

/// `text` with every occurrence of `from` replaced by `to`, where occurrences are
/// taken from the left and do not overlap. `from` is not empty.
pub open spec fn replaced(text: Seq<char>, from: Seq<char>, to: Seq<char>) -> Seq<char>
    recommends
        from.len() > 0,
    decreases text.len(),
{
    if text.len() == 0 || from.len() == 0 {
        text
    } else if occurs_at(text, from, 0) {
        to + replaced(text.skip(from.len() as int), from, to)
    } else {
        seq![text[0]] + replaced(text.skip(1), from, to)
    }
}

/// The decimal digit of value `value`.
pub open spec fn digit(value: nat) -> char {
    (('0' as nat) + value) as char
}

/// `number` in decimal notation, without leading zeros.
pub open spec fn decimal(number: nat) -> Seq<char>
    decreases number,
{
    if number < 10 {
        seq![digit(number)]
    } else {
        decimal(number / 10).push(digit(number % 10))
    }
}

/// The characters of `text`, in order.
fn characters(text: &str) -> (result: Vec<char>)
    ensures
        result@ == text@,
{
    let mut result: Vec<char> = Vec::new();
    for c in iter: text.chars()
        invariant
            iter.seq() == text@,
            result@ == text@.take(iter.index() as int),
    {
        result.push(c);
        assert(text@.take(iter.index() + 1) == text@.take(iter.index() as int).push(c));
    }
    assert(text@.take(text@.len() as int) == text@);
    result
}

/// Whether `pattern` stands in `text` at index `at`.
fn matches_at(text: &Vec<char>, pattern: &Vec<char>, at: usize) -> (result: bool)
    requires
        at <= text@.len(),
    ensures
        result == occurs_at(text@, pattern@, at as int),
{
    if pattern.len() > text.len() - at {
        return false;
    }
    let mut i: usize = 0;
    while i < pattern.len()
        invariant
            at + pattern.len() <= text.len(),
            i <= pattern@.len(),
            forall|j: int| 0 <= j < i ==> text@[at + j] == pattern@[j],
        decreases pattern@.len() - i,
    {
        if text[at + i] != pattern[i] {
            assert(text@.subrange(at as int, at + pattern@.len())[i as int] != pattern@[i as int]);
            return false;
        }
        i += 1;
    }
    assert(text@.subrange(at as int, at + pattern@.len()) =~= pattern@);
    true
}

/// Whether `text` begins with `prefix`.
pub fn begins_with(text: &str, prefix: &str) -> (result: bool)
    ensures
        result == occurs_at(text@, prefix@, 0),
{
    matches_at(&characters(text), &characters(prefix), 0)
}

/// `text` with every occurrence of `from` replaced by `to`; occurrences are taken
/// from the left and do not overlap.
pub fn replace_occurrences(text: &str, from: &str, to: &str) -> (result: String)
    requires
        from@.len() > 0,
    ensures
        result@ == replaced(text@, from@, to@),
{
    let chars: Vec<char> = characters(text);
    let pattern: Vec<char> = characters(from);
    let mut result: String = String::new();
    // What lies before `kept` is in `result`, with its replacements made. From
    // `kept` to `i` nothing was replaced.
    let mut kept: usize = 0;
    let mut i: usize = 0;
    assert(text@.skip(0) == text@);
    while i < chars.len()
        invariant
            chars@ == text@,
            pattern@ == from@,
            from@.len() > 0,
            kept <= i <= chars@.len(),
            result@ + text@.subrange(kept as int, i as int) + replaced(
                text@.skip(i as int),
                from@,
                to@,
            ) == replaced(text@, from@, to@),
        decreases chars@.len() - i,
    {
        let ghost rest = text@.skip(i as int);
        if matches_at(&chars, &pattern, i) {
            assert(rest.subrange(0, from@.len() as int) =~= text@.subrange(
                i as int,
                i + from@.len(),
            ));
            assert(rest.skip(from@.len() as int) =~= text@.skip(i + from@.len()));
            let ghost before = result@;
            let ghost run = text@.subrange(kept as int, i as int);
            result.append(text.substring_char(kept, i));
            result.append(to);
            i += pattern.len();
            kept = i;
            assert(result@ + text@.subrange(kept as int, i as int) =~= before + run + to@);
            assert(before + run + (to@ + replaced(text@.skip(i as int), from@, to@)) =~= before
                + run + to@ + replaced(text@.skip(i as int), from@, to@));
        } else {
            assert(!occurs_at(rest, from@, 0)) by {
                if occurs_at(rest, from@, 0) {
                    assert(rest.subrange(0, from@.len() as int) =~= text@.subrange(
                        i as int,
                        i + from@.len(),
                    ));
                }
            }
            assert(rest.skip(1) =~= text@.skip(i + 1));
            let ghost run = text@.subrange(kept as int, i as int);
            let ghost tail = replaced(text@.skip(i + 1), from@, to@);
            assert(text@.subrange(kept as int, i + 1) =~= run + seq![text@[i as int]]);
            assert(result@ + run + (seq![text@[i as int]] + tail) =~= result@ + (run
                + seq![text@[i as int]]) + tail);
            i += 1;
        }
    }
    result.append(text.substring_char(kept, chars.len()));
    assert(text@.skip(i as int) =~= Seq::<char>::empty());
    assert(result@ + Seq::<char>::empty() =~= result@);
    result
}

/// The decimal digit of value `value`, as text.
fn digit_text(value: u32) -> (result: &'static str)
    requires
        value < 10,
    ensures
        result@ == seq![digit(value as nat)],
{
    proof {
        reveal_strlit("0");
        reveal_strlit("1");
        reveal_strlit("2");
        reveal_strlit("3");
        reveal_strlit("4");
        reveal_strlit("5");
        reveal_strlit("6");
        reveal_strlit("7");
        reveal_strlit("8");
        reveal_strlit("9");
    }
    match value {
        0 => "0",
        1 => "1",
        2 => "2",
        3 => "3",
        4 => "4",
        5 => "5",
        6 => "6",
        7 => "7",
        8 => "8",
        _ => "9",
    }
}

/// `number` in decimal notation.
pub fn decimal_text(number: u32) -> (result: String)
    ensures
        result@ == decimal(number as nat),
    decreases number,
{
    if number < 10 {
        digit_text(number).to_owned()
    } else {
        let mut result: String = decimal_text(number / 10);
        result.append(digit_text(number % 10));
        result
    }
}

/// A text without an occurrence of `from` stays as it is.
pub proof fn law_replaced_without_occurrence(text: Seq<char>, from: Seq<char>, to: Seq<char>)
    requires
        from.len() > 0,
        !occurs_in(text, from),
    ensures
        replaced(text, from, to) == text,
{
    lemma_kept_before_occurrence(text, from, to, text.len() as int);
    assert(text.take(text.len() as int) + replaced(text.skip(text.len() as int), from, to)
        =~= text);
}

/// No proper suffix of `pattern` is also a prefix of it, so two occurrences of it
/// never overlap. A borderless pattern is not empty.
pub open spec fn borderless(pattern: Seq<char>) -> bool {
    &&& pattern.len() > 0
    &&& forall|shift: int|
        0 < shift < pattern.len() ==> #[trigger] pattern.skip(shift) != pattern.take(
            pattern.len() - shift,
        )
}

/// Every occurrence of `inner` in `text` overlaps an occurrence of `outer`.
pub open spec fn covered(text: Seq<char>, inner: Seq<char>, outer: Seq<char>) -> bool {
    forall|at: int| #[trigger]
        occurs_at(text, inner, at) ==> exists|by: int|
            {
                &&& #[trigger] occurs_at(text, outer, by)
                &&& by < at + inner.len()
                &&& at < by + outer.len()
            }
}

/// An occurrence in a suffix of `text` is an occurrence in `text`.
proof fn lemma_occurs_in_suffix(text: Seq<char>, pattern: Seq<char>, from: int, at: int)
    requires
        0 <= from <= text.len(),
        0 <= at,
    ensures
        occurs_at(text.skip(from), pattern, at) == occurs_at(text, pattern, from + at),
{
    if at + pattern.len() <= text.len() - from {
        assert(text.skip(from).subrange(at, at + pattern.len()) =~= text.subrange(
            from + at,
            from + at + pattern.len(),
        ));
    }
}

/// The first of the occurrences of `pattern`, given one of them.
proof fn lemma_first_occurrence(text: Seq<char>, pattern: Seq<char>, at: int) -> (first: int)
    requires
        occurs_at(text, pattern, at),
    ensures
        0 <= first <= at,
        occurs_at(text, pattern, first),
        forall|earlier: int| earlier < first ==> !occurs_at(text, pattern, earlier),
    decreases at,
{
    if exists|earlier: int| earlier < at && occurs_at(text, pattern, earlier) {
        let earlier = choose|earlier: int| earlier < at && occurs_at(text, pattern, earlier);
        lemma_first_occurrence(text, pattern, earlier)
    } else {
        at
    }
}

/// What stands before the first occurrence is kept as it is.
proof fn lemma_kept_before_occurrence(text: Seq<char>, from: Seq<char>, to: Seq<char>, end: int)
    requires
        from.len() > 0,
        0 <= end <= text.len(),
        forall|at: int| at < end ==> !occurs_at(text, from, at),
    ensures
        replaced(text, from, to) == text.take(end) + replaced(text.skip(end), from, to),
    decreases end,
{
    if end == 0 {
        assert(text.skip(0) =~= text);
        assert(text.take(0) + replaced(text, from, to) =~= replaced(text, from, to));
    } else {
        assert forall|at: int| at < end - 1 implies !occurs_at(text.skip(1), from, at) by {
            if 0 <= at {
                lemma_occurs_in_suffix(text, from, 1, at);
            }
        }
        lemma_kept_before_occurrence(text.skip(1), from, to, end - 1);
        assert(text.skip(1).skip(end - 1) =~= text.skip(end));
        let rest = replaced(text.skip(end), from, to);
        assert(seq![text[0]] + (text.skip(1).take(end - 1) + rest) =~= text.take(end) + rest);
    }
}

/// Replacing brings no occurrence of `to` to the front that was not there before.
proof fn lemma_no_new_occurrence(text: Seq<char>, from: Seq<char>, to: Seq<char>)
    requires
        from.len() > 0,
        borderless(to),
        !occurs_at(text, from, 0),
        occurs_at(replaced(text, from, to), to, 0),
    ensures
        occurs_at(text, to, 0),
        forall|at: int| at < to.len() ==> !occurs_at(text, from, at),
{
    let result = replaced(text, from, to);
    if exists|at: int| at < to.len() && occurs_at(text, from, at) {
        let at = choose|at: int| at < to.len() && occurs_at(text, from, at);
        let first = lemma_first_occurrence(text, from, at);
        lemma_kept_before_occurrence(text, from, to, first);
        lemma_occurs_in_suffix(text, from, first, 0);
        assert forall|i: int| 0 <= i < to.len() - first implies to.skip(first)[i] == to[i] by {
            assert(result.subrange(0, to.len() as int)[first + i] == to[first + i]);
        }
        assert(to.skip(first) =~= to.take(to.len() - first));
    } else {
        let end = if to.len() <= text.len() {
            to.len() as int
        } else {
            text.len() as int
        };
        lemma_kept_before_occurrence(text, from, to, end);
        assert(replaced(text.skip(text.len() as int), from, to).len() == 0);
        assert(result.subrange(0, to.len() as int) =~= text.subrange(0, to.len() as int));
    }
}

/// Replacing back gives a text again that `to` does not stand in.
pub proof fn law_replaced_back_without_occurrence(text: Seq<char>, from: Seq<char>, to: Seq<char>)
    requires
        from.len() > 0,
        borderless(to),
        !occurs_in(text, to),
    ensures
        replaced(replaced(text, from, to), to, from) == text,
    decreases text.len(),
{
    if text.len() > 0 {
        let result = replaced(text, from, to);
        let n = if occurs_at(text, from, 0) {
            from.len() as int
        } else {
            1
        };
        assert(!occurs_in(text.skip(n), to)) by {
            if occurs_in(text.skip(n), to) {
                let at = choose|at: int| occurs_at(text.skip(n), to, at);
                lemma_occurs_in_suffix(text, to, n, at);
            }
        }
        law_replaced_back_without_occurrence(text.skip(n), from, to);
        let rest = replaced(text.skip(n), from, to);
        if occurs_at(text, from, 0) {
            assert(result.subrange(0, to.len() as int) =~= to);
            assert(result.skip(to.len() as int) =~= rest);
            assert(from + text.skip(n) =~= text) by {
                assert(text.subrange(0, n) + text.skip(n) =~= text);
            }
        } else {
            if occurs_at(result, to, 0) {
                lemma_no_new_occurrence(text, from, to);
            }
            assert(result.skip(1) =~= rest);
            assert(seq![text[0]] + text.skip(1) =~= text);
        }
    }
}

/// `covered` is inherited by what a left-to-right scan still has before it.
proof fn lemma_covered_suffix(text: Seq<char>, inner: Seq<char>, outer: Seq<char>, from: int)
    requires
        covered(text, inner, outer),
        0 <= from <= text.len(),
        // The part that was scanned holds no start of an occurrence of `outer` that
        // reaches beyond it.
        forall|by: int| 0 <= by < from && occurs_at(text, outer, by) ==> by + outer.len() <= from,
    ensures
        covered(text.skip(from), inner, outer),
{
    assert forall|at: int| #[trigger] occurs_at(text.skip(from), inner, at) implies exists|by: int|
        {
            &&& #[trigger] occurs_at(text.skip(from), outer, by)
            &&& by < at + inner.len()
            &&& at < by + outer.len()
        } by {
        lemma_occurs_in_suffix(text, inner, from, at);
        let by = choose|by: int|
            {
                &&& #[trigger] occurs_at(text, outer, by)
                &&& by < from + at + inner.len()
                &&& from + at < by + outer.len()
            };
        lemma_occurs_in_suffix(text, outer, from, by - from);
    }
}

/// Two occurrences of a borderless pattern do not overlap.
proof fn lemma_occurrences_apart(text: Seq<char>, pattern: Seq<char>, one: int, other: int)
    requires
        borderless(pattern),
        occurs_at(text, pattern, one),
        occurs_at(text, pattern, other),
        one < other,
    ensures
        one + pattern.len() <= other,
{
    let shift = other - one;
    if shift < pattern.len() {
        assert forall|i: int| 0 <= i < pattern.len() - shift implies pattern.skip(shift)[i]
            == pattern[i] by {
            assert(text.subrange(one, one + pattern.len())[shift + i] == pattern[shift + i]);
            assert(text.subrange(other, other + pattern.len())[i] == pattern[i]);
        }
        assert(pattern.skip(shift) =~= pattern.take(pattern.len() - shift));
    }
}

/// Replacing back gives the text again where every `to` of it overlaps a `from`.
proof fn lemma_replaced_back(text: Seq<char>, from: Seq<char>, to: Seq<char>)
    requires
        borderless(from),
        borderless(to),
        covered(text, to, from),
    ensures
        replaced(replaced(text, from, to), to, from) == text,
    decreases text.len(),
{
    if text.len() > 0 {
        let result = replaced(text, from, to);
        if occurs_at(text, from, 0) {
            let n = from.len() as int;
            let rest = replaced(text.skip(n), from, to);
            assert forall|by: int| 0 <= by < n && occurs_at(text, from, by) implies by + n
                <= n by {
                if by > 0 {
                    lemma_occurrences_apart(text, from, 0, by);
                }
            }
            lemma_covered_suffix(text, to, from, n);
            lemma_replaced_back(text.skip(n), from, to);
            assert(result.subrange(0, to.len() as int) =~= to);
            assert(result.skip(to.len() as int) =~= rest);
            assert(from + text.skip(n) =~= text) by {
                assert(text.subrange(0, n) + text.skip(n) =~= text);
            }
        } else {
            let rest = replaced(text.skip(1), from, to);
            if occurs_at(result, to, 0) {
                lemma_no_new_occurrence(text, from, to);
            }
            lemma_covered_suffix(text, to, from, 1);
            lemma_replaced_back(text.skip(1), from, to);
            assert(result.skip(1) =~= rest);
            assert(seq![text[0]] + text.skip(1) =~= text);
        }
    }
}

/// Replacing back never undoes too little: the length moves one way only.
proof fn lemma_length_after_replacing_back(text: Seq<char>, from: Seq<char>, to: Seq<char>)
    requires
        borderless(from),
        borderless(to),
    ensures
        from.len() <= to.len() ==> replaced(replaced(text, from, to), to, from).len()
            <= text.len(),
        from.len() >= to.len() ==> replaced(replaced(text, from, to), to, from).len()
            >= text.len(),
    decreases text.len(),
{
    if text.len() > 0 {
        let result = replaced(text, from, to);
        if occurs_at(text, from, 0) {
            lemma_length_after_replacing_back(text.skip(from.len() as int), from, to);
            assert(result.subrange(0, to.len() as int) =~= to);
            assert(result.skip(to.len() as int) =~= replaced(
                text.skip(from.len() as int),
                from,
                to,
            ));
        } else if occurs_at(result, to, 0) {
            lemma_no_new_occurrence(text, from, to);
            lemma_kept_before_occurrence(text, from, to, to.len() as int);
            lemma_length_after_replacing_back(text.skip(to.len() as int), from, to);
            assert(result.skip(to.len() as int) =~= replaced(
                text.skip(to.len() as int),
                from,
                to,
            ));
        } else {
            lemma_length_after_replacing_back(text.skip(1), from, to);
            assert(result.skip(1) =~= replaced(text.skip(1), from, to));
        }
    }
}

/// An occurrence of `to` that overlaps no `from` is lost when replacing back: the
/// length of the text changes.
proof fn lemma_replaced_back_loses(text: Seq<char>, from: Seq<char>, to: Seq<char>, at: int)
    requires
        borderless(from),
        borderless(to),
        occurs_at(text, to, at),
        forall|by: int| #[trigger]
            occurs_at(text, from, by) ==> by >= at + to.len() || at >= by + from.len(),
    ensures
        from.len() < to.len() ==> replaced(replaced(text, from, to), to, from).len() < text.len(),
        from.len() > to.len() ==> replaced(replaced(text, from, to), to, from).len() > text.len(),
    decreases text.len(),
{
    let result = replaced(text, from, to);
    if occurs_at(text, from, 0) {
        let n = from.len() as int;
        lemma_occurs_in_suffix(text, to, n, at - n);
        assert forall|by: int| #[trigger] occurs_at(text.skip(n), from, by) implies by >= at - n
            + to.len() || at - n >= by + from.len() by {
            lemma_occurs_in_suffix(text, from, n, by);
        }
        lemma_replaced_back_loses(text.skip(n), from, to, at - n);
        assert(result.subrange(0, to.len() as int) =~= to);
        assert(result.skip(to.len() as int) =~= replaced(text.skip(n), from, to));
    } else if at == 0 || occurs_at(result, to, 0) {
        let n = to.len() as int;
        if at != 0 {
            lemma_no_new_occurrence(text, from, to);
        }
        lemma_kept_before_occurrence(text, from, to, n);
        assert(result.subrange(0, n) =~= to) by {
            assert(text.subrange(0, n) =~= to);
        }
        assert(result.skip(n) =~= replaced(text.skip(n), from, to));
        lemma_length_after_replacing_back(text.skip(n), from, to);
    } else {
        lemma_occurs_in_suffix(text, to, 1, at - 1);
        assert forall|by: int| #[trigger] occurs_at(text.skip(1), from, by) implies by >= at - 1
            + to.len() || at - 1 >= by + from.len() by {
            lemma_occurs_in_suffix(text, from, 1, by);
        }
        lemma_replaced_back_loses(text.skip(1), from, to, at - 1);
        assert(result.skip(1) =~= replaced(text.skip(1), from, to));
    }
}

/// Replacing `from` by `to` and then `to` by `from` gives the text again exactly
/// where every occurrence of `to` in the text overlaps one of `from`.
pub proof fn law_replacement_round_trip(text: Seq<char>, from: Seq<char>, to: Seq<char>)
    requires
        borderless(from),
        borderless(to),
        from.len() != to.len(),
    ensures
        replaced(replaced(text, from, to), to, from) == text <==> covered(text, to, from),
{
    if covered(text, to, from) {
        lemma_replaced_back(text, from, to);
    } else {
        let at = choose|at: int| #[trigger]
            occurs_at(text, to, at) && !exists|by: int|
                {
                    &&& #[trigger] occurs_at(text, from, by)
                    &&& by < at + to.len()
                    &&& at < by + from.len()
                };
        lemma_replaced_back_loses(text, from, to, at);
    }
}

/// A pattern stands at an index exactly if its characters do, one by one.
pub proof fn law_occurrence_is_by_character(text: Seq<char>, pattern: Seq<char>, at: int)
    ensures
        occurs_at(text, pattern, at) <==> {
            &&& 0 <= at
            &&& at + pattern.len() <= text.len()
            &&& forall|i: int| 0 <= i < pattern.len() ==> text[at + i] == #[trigger] pattern[i]
        },
        occurs_in(text, pattern) <==> exists|index: int| occurs_at(text, pattern, index),
{
    if 0 <= at && at + pattern.len() <= text.len() {
        let part = text.subrange(at, at + pattern.len());
        assert forall|i: int| 0 <= i < pattern.len() implies part[i] == text[at + i] by {}
        if forall|i: int| 0 <= i < pattern.len() ==> text[at + i] == #[trigger] pattern[i] {
            assert(part =~= pattern);
        }
    }
}

/// The first occurrence is replaced, what stands before it is kept, and what follows
/// it is treated in the same way.
pub proof fn law_replaced_at_first_occurrence(
    before: Seq<char>,
    after: Seq<char>,
    from: Seq<char>,
    to: Seq<char>,
)
    requires
        from.len() > 0,
        forall|at: int|
            0 <= at < before.len() ==> !#[trigger] occurs_at(before + from + after, from, at),
    ensures
        replaced(before + from + after, from, to) == before + to + replaced(after, from, to),
{
    let text = before + from + after;
    let n = before.len() as int;
    lemma_kept_before_occurrence(text, from, to, n);
    let rest = text.skip(n);
    assert(rest.subrange(0, from.len() as int) =~= from);
    assert(rest.skip(from.len() as int) =~= after);
    assert(text.take(n) =~= before);
    assert(before + (to + replaced(after, from, to)) =~= before + to + replaced(after, from, to));
}

/// The number that decimal digits stand for.
pub open spec fn number_of(digits: Seq<char>) -> int
    decreases digits.len(),
{
    if digits.len() == 0 {
        0
    } else {
        10 * number_of(digits.drop_last()) + (digits.last() as int - '0' as int)
    }
}

/// The decimal notation of a number is made of digits, begins with a zero only if
/// that is all of it, and stands for the number.
pub proof fn law_decimal_stands_for_its_number(number: nat)
    ensures
        number_of(decimal(number)) == number,
        decimal(number).len() > 0,
        decimal(number)[0] == '0' ==> number == 0,
        number < 10 ==> decimal(number).len() == 1,
        forall|i: int|
            0 <= i < decimal(number).len() ==> '0' <= #[trigger] decimal(number)[i] <= '9',
    decreases number,
{
    reveal_with_fuel(number_of, 2);
    let digits = decimal(number);
    if number < 10 {
        assert(digits.drop_last() =~= Seq::<char>::empty());
    } else {
        law_decimal_stands_for_its_number(number / 10);
        assert(digits.drop_last() =~= decimal(number / 10));
    }
}

} // verus!
