//! What holds of texts, numbers and lists as they are written and read.
use vstd::prelude::*;

use crate::text::{
    decimal_text, digit_char, ends_in, opt_str, opt_text, texts, trim_end, trim_start,
};

verus! {

/// What is dropped at the end of a text is that character alone, and all of it.
pub proof fn only_the_end_is_dropped(text: Seq<char>, c: char)
    ensures
        trim_end(text, c).len() <= text.len(),
        text.take(trim_end(text, c).len() as int) == trim_end(text, c),
        forall|k: int| trim_end(text, c).len() <= k < text.len() ==> #[trigger] text[k] == c,
        trim_end(text, c).len() > 0 ==> trim_end(text, c).last() != c,
    decreases text.len(),
{
    if text.len() > 0 && text.last() == c {
        let front = text.drop_last();
        only_the_end_is_dropped(front, c);
        let n = trim_end(front, c).len() as int;
        assert(text.take(n) =~= front.take(n));
        assert forall|k: int| n <= k < text.len() implies #[trigger] text[k] == c by {
            if k < front.len() {
                assert(front[k] == text[k]);
            }
        }
    } else {
        assert(text.take(text.len() as int) =~= text);
    }
}

/// What is dropped at the start of a text is that character alone, and all of it.
pub proof fn only_the_start_is_dropped(text: Seq<char>, c: char)
    ensures
        trim_start(text, c).len() <= text.len(),
        text.skip(text.len() - trim_start(text, c).len()) == trim_start(text, c),
        forall|k: int|
            0 <= k < text.len() - trim_start(text, c).len() ==> #[trigger] text[k] == c,
        trim_start(text, c).len() > 0 ==> trim_start(text, c)[0] != c,
    decreases text.len(),
{
    if text.len() > 0 && text[0] == c {
        let rest = text.drop_first();
        only_the_start_is_dropped(rest, c);
        let n = rest.len() - trim_start(rest, c).len();
        assert(text.skip(n + 1) =~= rest.skip(n));
        assert forall|k: int| 0 <= k < n + 1 implies #[trigger] text[k] == c by {
            if k > 0 {
                assert(rest[k - 1] == text[k]);
            }
        }
    } else {
        assert(text.skip(0) =~= text);
    }
}

/// A text ends in another if and only if it is some text with the other behind it.
pub proof fn an_end_follows_a_front(text: Seq<char>, end: Seq<char>, front: Seq<char>)
    ensures
        ends_in(front + end, end),
        ends_in(text, end) ==> text == text.take(text.len() - end.len()) + end,
{
    assert((front + end).skip(front.len() as int) =~= end);
    if ends_in(text, end) {
        let n = text.len() - end.len();
        assert(text =~= text.take(n) + text.skip(n));
    }
}

/// The number that decimal digits stand for.
pub open spec fn number_of(digits: Seq<char>) -> int
    decreases digits.len(),
{
    if digits.len() == 0 {
        0
    } else {
        10 * number_of(digits.drop_last()) + (digits.last() as int - '0' as int)
    }
}

/// A number is written in decimal digits, of which the first is no zero but for the number
/// zero, and those digits stand for it.
pub proof fn decimals_stand_for_their_number(n: nat)
    ensures
        number_of(decimal_text(n)) == n,
        decimal_text(n).len() > 0,
        forall|k: int| 0 <= k < decimal_text(n).len() ==> '0' <= #[trigger] decimal_text(n)[k]
            <= '9',
        n > 0 ==> decimal_text(n)[0] != '0',
        n == 0 ==> decimal_text(n) == seq!['0'],
    decreases n,
{
    if n < 10 {
        assert(digit_char(n as int) as int == 48 + n);
        let digits = decimal_text(n);
        assert(digits.drop_last() =~= Seq::<char>::empty());
        assert(digits.last() as int == 48 + n);
        reveal_with_fuel(number_of, 2);
        assert(n == 0 ==> digits =~= seq!['0']);
    } else {
        decimals_stand_for_their_number(n / 10);
        let front = decimal_text(n / 10);
        let digits = decimal_text(n);
        assert(digit_char((n % 10) as int) as int == 48 + n % 10);
        assert(digits.drop_last() =~= front);
        assert(digits.last() as int == 48 + n % 10);
        assert forall|k: int| 0 <= k < digits.len() implies '0' <= #[trigger] digits[k] <= '9' by {
            if k < front.len() {
                assert(digits[k] == front[k]);
            }
        }
        assert(digits[0] == front[0]);
    }
}

/// A list of texts is seen as its texts, each in its place, and an optional text as that text
/// where there is one.
pub proof fn texts_are_seen_as_they_are(
    list: Seq<String>,
    i: int,
    text: Option<String>,
    part: Option<&str>,
)
    ensures
        texts(list).len() == list.len(),
        0 <= i < list.len() ==> texts(list)[i] == list[i]@,
        text is Some ==> opt_text(text) == Some(text->0@),
        text is None ==> opt_text(text) is None,
        part is Some ==> opt_str(part) == Some(part->0@),
        part is None ==> opt_str(part) is None,
{
}

} // verus!
