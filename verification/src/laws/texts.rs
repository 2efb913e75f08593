//! Laws of texts and numbers in texts.
use vstd::prelude::*;

use crate::arguments::all_digits;
use crate::arguments::digits_value;
use crate::arguments::integer_in;
use crate::preroll::octal;
use crate::profile::unique;
use crate::symbol::instrument_chars;
use crate::symbol::is_digit;
use crate::symbol::is_visible;
use crate::text::begins_with;
use crate::text::decimal;
use crate::text::holds_part;
use crate::text::is_space;
use crate::text::joined;
use crate::text::list_or_none;
use crate::text::lower;
use crate::text::non_empty_chars;
use crate::text::signed_decimal;
use crate::text::text_lt;
use crate::text::trimmed;
use crate::text::trimmed_end;
use crate::text::trimmed_start;
use crate::text::upper;

verus! {

proof fn digits_read_back(d: int)
    requires
        0 <= d < 10,
    ensures
        is_digit(crate::text::digit_char(d)),
        crate::symbol::digit_value(crate::text::digit_char(d)) == d,
{
}

/// A number that is written is read back as it was, and its first digit is zero only for zero itself.
pub proof fn written_numbers_read_back(n: nat)
    ensures
        decimal(n).len() > 0,
        all_digits(decimal(n)),
        digits_value(decimal(n)) == n,
        n > 0 ==> decimal(n)[0] != '0',
        n == 0 ==> decimal(n) == seq!['0'],
    decreases n,
{
    if n < 10 {
        digits_read_back(n as int);
        assert(decimal(n).drop_last() =~= Seq::<char>::empty());
        assert(digits_value(decimal(n).drop_last()) == 0);
    } else {
        written_numbers_read_back(n / 10);
        digits_read_back((n % 10) as int);
        assert(decimal(n).drop_last() =~= decimal(n / 10));
        assert(decimal(n)[0] == decimal(n / 10)[0]);
        assert forall|i: int| 0 <= i < decimal(n).len() implies is_digit(#[trigger] decimal(n)[i]) by {
            if i < decimal(n / 10).len() {
                assert(decimal(n)[i] == decimal(n / 10)[i]);
            }
        }
    }
}

/// A number with a sign is read back as it was.
pub proof fn signed_numbers_read_back(n: int)
    requires
        i64::MIN <= n <= i64::MAX,
    ensures
        integer_in(signed_decimal(n)) == Some(n),
{
    if n < 0 {
        written_numbers_read_back((-n) as nat);
        assert(signed_decimal(n).skip(1) =~= decimal((-n) as nat));
    } else {
        written_numbers_read_back(n as nat);
        let text = decimal(n as nat);
        assert(is_digit(text[0]));
    }
}

/// A number in octal digits is read back by the value of its digits: one more digit counts eightfold.
pub proof fn octal_digits_count_eightfold(n: nat, d: nat)
    requires
        n > 0,
        d < 8,
    ensures
        octal(8 * n + d) == octal(n) + octal(d),
{
    assert((8 * n + d) / 8 == n);
    assert((8 * n + d) % 8 == d);
    assert(octal(8 * n + d) =~= octal(n) + octal(d));
}

/// What is trimmed has no space at either end, and only space was taken away.
pub proof fn trimming_takes_the_space_at_the_ends(text: Seq<char>)
    ensures
        trimmed(text).len() > 0 ==> !is_space(trimmed(text)[0]) && !is_space(trimmed(text).last()),
        exists|a: int, b: int|
            #![trigger text.subrange(a, b)]
            0 <= a <= b <= text.len() && trimmed(text) == text.subrange(a, b) && (forall|i: int|
                0 <= i < text.len() && (i < a || b <= i) ==> is_space(#[trigger] text[i])),
{
    let front = trimmed_start(text);
    let a = text.len() - front.len();
    start_is_trimmed(text);
    end_is_trimmed(front);
    let b = a + trimmed(text).len();
    assert(front =~= text.skip(a));
    assert(trimmed(text) =~= text.subrange(a, b));
    assert forall|i: int| 0 <= i < text.len() && (i < a || b <= i) implies is_space(
        #[trigger] text[i],
    ) by {
        if b <= i {
            assert(front[i - a] == text[i]);
        }
    }
    if trimmed(text).len() > 0 {
        assert(trimmed(text)[0] == front[0]);
    }
}

proof fn start_is_trimmed(text: Seq<char>)
    ensures
        ({
            let rest = trimmed_start(text);
            let a = text.len() - rest.len();
            &&& 0 <= a
            &&& rest == text.skip(a)
            &&& rest.len() > 0 ==> !is_space(rest[0])
            &&& forall|i: int| 0 <= i < a ==> is_space(#[trigger] text[i])
        }),
    decreases text.len(),
{
    if text.len() > 0 && is_space(text[0]) {
        let tail = text.drop_first();
        start_is_trimmed(tail);
        let rest = trimmed_start(text);
        let a = text.len() - rest.len();
        assert(rest =~= text.skip(a));
        assert forall|i: int| 0 <= i < a implies is_space(#[trigger] text[i]) by {
            if i > 0 {
                assert(tail[i - 1] == text[i]);
            }
        }
    } else {
        assert(text.skip(0) =~= text);
    }
}

proof fn end_is_trimmed(text: Seq<char>)
    ensures
        ({
            let rest = trimmed_end(text);
            &&& rest.len() <= text.len()
            &&& rest == text.take(rest.len() as int)
            &&& rest.len() > 0 ==> !is_space(rest.last())
            &&& forall|i: int| rest.len() <= i < text.len() ==> is_space(#[trigger] text[i])
        }),
    decreases text.len(),
{
    if text.len() > 0 && is_space(text.last()) {
        let front = text.drop_last();
        end_is_trimmed(front);
        let rest = trimmed_end(text);
        assert(rest =~= text.take(rest.len() as int));
        assert forall|i: int| rest.len() <= i < text.len() implies is_space(#[trigger] text[i]) by {
            if i < text.len() - 1 {
                assert(front[i] == text[i]);
            }
        }
    } else {
        assert(text.take(text.len() as int) =~= text);
    }
}

/// A text is more than space exactly when something is left of it after trimming.
pub proof fn visible_texts_survive_trimming(text: Seq<char>)
    ensures
        is_visible(text) <==> trimmed(text).len() > 0,
        non_empty_chars(Some(text)) is Some <==> is_visible(text),
        non_empty_chars(Some(text)) matches Some(inner) ==> inner == trimmed(text),
{
    trimming_takes_the_space_at_the_ends(text);
    let (a, b) = choose|a: int, b: int|
        #![trigger text.subrange(a, b)]
        0 <= a <= b <= text.len() && trimmed(text) == text.subrange(a, b) && (forall|i: int|
            0 <= i < text.len() && (i < a || b <= i) ==> is_space(#[trigger] text[i]));
    if trimmed(text).len() > 0 {
        assert(trimmed(text)[0] == text[a]);
    }
}

/// Upper and lower case keep a text's length and its letters: each undoes the other.
pub proof fn cases_undo_each_other(text: Seq<char>)
    ensures
        upper(text).len() == text.len(),
        lower(text).len() == text.len(),
        upper(upper(text)) == upper(text),
        lower(lower(text)) == lower(text),
        lower(upper(text)) == lower(text),
        upper(lower(text)) == upper(text),
{
    assert(upper(upper(text)) =~= upper(text));
    assert(lower(lower(text)) =~= lower(text));
    assert(lower(upper(text)) =~= lower(text));
    assert(upper(lower(text)) =~= upper(text));
}

/// Parts are joined in order, with the separator between neighbours and nowhere else.
pub proof fn parts_are_joined_in_order(
    parts: Seq<Seq<char>>,
    part: Seq<char>,
    separator: Seq<char>,
)
    ensures
        joined(Seq::empty(), separator) == Seq::<char>::empty(),
        joined(seq![part], separator) == part,
        parts.len() > 0 ==> joined(parts.push(part), separator) == joined(parts, separator)
            + separator + part,
        list_or_none(Seq::empty()) == "none"@,
        list_or_none(parts.push(part)) == joined(parts.push(part), ","@),
{
    assert(parts.push(part).drop_last() =~= parts);
}

/// A text begins with a part exactly when it is the part and something after it, and holds a part exactly
/// when it is something, the part and something.
pub proof fn parts_stand_in_their_texts(whole: Seq<char>, part: Seq<char>)
    ensures
        begins_with(whole, part) <==> exists|rest: Seq<char>| whole == #[trigger] (part + rest),
        holds_part(whole, part) <==> exists|front: Seq<char>, rest: Seq<char>|
            whole == #[trigger] (front + part + rest),
{
    if begins_with(whole, part) {
        let rest = whole.skip(part.len() as int);
        assert(whole =~= part + rest);
    }
    if exists|rest: Seq<char>| whole == #[trigger] (part + rest) {
        let rest = choose|rest: Seq<char>| whole == #[trigger] (part + rest);
        assert(whole.subrange(0, part.len() as int) =~= part);
    }
    if holds_part(whole, part) {
        let at = choose|at: int| crate::text::stands_at(whole, part, at);
        let front = whole.take(at);
        let rest = whole.skip(at + part.len());
        assert(whole =~= front + part + rest) by {
            assert(whole.subrange(at, at + part.len()) == part);
        }
    }
    if exists|front: Seq<char>, rest: Seq<char>| whole == #[trigger] (front + part + rest) {
        let (front, rest) = choose|front: Seq<char>, rest: Seq<char>|
            whole == #[trigger] (front + part + rest);
        let at = front.len() as int;
        assert(whole.subrange(at, at + part.len()) =~= part);
        assert(crate::text::stands_at(whole, part, at));
    }
}

/// Texts are ordered by their first difference, and a text comes before every longer one that begins with
/// it.
pub proof fn texts_are_ordered_by_their_first_difference(
    front: Seq<char>,
    a: Seq<char>,
    b: Seq<char>,
)
    ensures
        a.len() > 0 && b.len() > 0 && a[0] != b[0] ==> (text_lt(front + a, front + b) <==> a[0]
            < b[0]),
        b.len() > 0 ==> text_lt(front, front + b),
        !text_lt(front + a, front),
    decreases front.len(),
{
    if front.len() > 0 {
        texts_are_ordered_by_their_first_difference(front.drop_first(), a, b);
        assert((front + a).drop_first() =~= front.drop_first() + a);
        assert((front + b).drop_first() =~= front.drop_first() + b);
    } else {
        assert(front + a =~= a);
        assert(front + b =~= b);
    }
}

/// A name joins the unique ones exactly when it is not among them, and then comes last.
pub proof fn unique_names_keep_their_order(names: Seq<Seq<char>>, name: Seq<char>)
    ensures
        names.contains(name) ==> unique(names.push(name)) == unique(names),
        !names.contains(name) ==> unique(names.push(name)) == unique(names).push(name),
        unique(Seq::empty()).len() == 0,
{
    crate::profile::unique_keeps_every_name_once(names);
    assert(names.push(name).drop_last() =~= names);
}

/// The instrument of a symbol is the symbol at the venue: different symbols have different instruments.
pub proof fn instruments_name_their_symbol(a: Seq<char>, b: Seq<char>)
    ensures
        instrument_chars(a) == instrument_chars(b) <==> a == b,
        instrument_chars(a).len() == a.len() + 7,
{
    reveal_strlit(".ALPACA");
    let x = instrument_chars(a);
    let y = instrument_chars(b);
    if x == y {
        assert(a.len() == b.len());
        assert(x.take(a.len() as int) =~= a);
        assert(y.take(b.len() as int) =~= b);
    }
}

/// A number below eight is one octal digit, in the order of the digits.
pub proof fn octal_digits_are_in_order(d: nat)
    requires
        d < 8,
    ensures
        octal(d).len() == 1,
        octal(d)[0] as int == '0' as int + d,
{
}

/// Months and days have two digits, and years without a sign have four; both are read back as they were.
pub proof fn date_parts_are_padded(n: nat)
    ensures
        n < 100 ==> crate::calendar::two_digits(n).len() == 2 && digits_value(
            crate::calendar::two_digits(n),
        ) == n,
        n <= 9999 ==> crate::calendar::year_digits(n as int).len() == 4 && digits_value(
            crate::calendar::year_digits(n as int),
        ) == n,
        n > 9999 ==> crate::calendar::year_digits(n as int) == "+"@ + decimal(n),
        n > 0 ==> crate::calendar::year_digits(-(n as int)) == "-"@ + (if n <= 9999 {
            crate::calendar::year_digits(n as int)
        } else {
            decimal(n)
        }),
{
    reveal_strlit("0");
    reveal_strlit("00");
    reveal_strlit("000");
    written_numbers_read_back(n);
    zeros_in_front_count_nothing(decimal(n), 1);
    zeros_in_front_count_nothing(decimal(n), 2);
    zeros_in_front_count_nothing(decimal(n), 3);
    assert("0"@ =~= Seq::new(1, |i: int| '0'));
    assert("00"@ =~= Seq::new(2, |i: int| '0'));
    assert("000"@ =~= Seq::new(3, |i: int| '0'));
    reveal_with_fuel(decimal, 5);
}

proof fn zeros_in_front_count_nothing(digits: Seq<char>, zeros: nat)
    ensures
        digits_value(Seq::new(zeros, |i: int| '0') + digits) == digits_value(digits),
    decreases digits.len() + zeros,
{
    let front = Seq::new(zeros, |i: int| '0');
    let whole = front + digits;
    if digits.len() > 0 {
        zeros_in_front_count_nothing(digits.drop_last(), zeros);
        assert(whole.drop_last() =~= front + digits.drop_last());
    } else if zeros > 0 {
        let fewer = (zeros - 1) as nat;
        zeros_in_front_count_nothing(digits, fewer);
        assert(whole.drop_last() =~= Seq::new(fewer, |i: int| '0') + digits);
        assert(whole.last() == '0');
    } else {
        assert(whole =~= digits);
    }
}

} // verus!
