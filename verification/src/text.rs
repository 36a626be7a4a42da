//! Building and comparing text.
use vstd::prelude::*;

verus! {

/// The character of one decimal digit.
pub open spec fn digit_char(digit: nat) -> char {
    (48 + digit) as char
}

/// A natural number in decimal, without leading zeros.
pub open spec fn digits(number: nat) -> Seq<char>
    decreases number,
{
    if number < 10 {
        seq![digit_char(number)]
    } else {
        digits(number / 10).push(digit_char(number % 10))
    }
}

/// An integer in decimal, with a leading minus sign when it is negative.
pub open spec fn decimal(number: int) -> Seq<char> {
    if number < 0 {
        seq!['-'] + digits((-number) as nat)
    } else {
        digits(number as nat)
    }
}

/// The parts in order, with the separator between neighbours.
pub open spec fn joined(parts: Seq<Seq<char>>, separator: Seq<char>) -> Seq<char>
    decreases parts.len(),
{
    if parts.len() == 0 {
        Seq::empty()
    } else if parts.len() == 1 {
        parts.first()
    } else {
        parts.first() + separator + joined(parts.drop_first(), separator)
    }
}

/// A value that may be absent in either of two ways, with the two merged.
pub open spec fn flat<A>(value: Option<Option<A>>) -> Option<A> {
    match value {
        Some(inner) => inner,
        None => None,
    }
}

/// The text, or the empty text when there is none.
pub open spec fn or_empty(text: Option<Seq<char>>) -> Seq<char> {
    match text {
        Some(text) => text,
        None => Seq::empty(),
    }
}

/// The text when there is one and it is not empty.
pub open spec fn non_empty(text: Option<Seq<char>>) -> Option<Seq<char>> {
    match text {
        Some(text) => if text.len() > 0 {
            Some(text)
        } else {
            None
        },
        None => None,
    }
}

/// The first choice, else the second.
pub open spec fn either<A>(first: Option<A>, second: Option<A>) -> Option<A> {
    match first {
        Some(value) => Some(value),
        None => second,
    }
}

/// What standard formatting prints for a text with `{:?}`: the text in double
/// quotes, with the characters that need it escaped.
pub uninterp spec fn debug_text(text: Seq<char>) -> Seq<char>;

/// Formats a text with `{:?}`, the `Debug` implementation that the standard
/// library has for `str`. The contract claims only that the outcome is determined
/// by the characters of the text.
#[verifier::external_body]
pub(crate) fn debug_str(text: &str) -> (printed: String)
    ensures
        printed@ == debug_text(text@),
{
    format!("{:?}", text)
}

/// Whether two texts hold the same characters.
pub fn same_text(left: &str, right: &str) -> (same: bool)
    ensures
        same == (left@ == right@),
{
    left.to_owned() == right.to_owned()
}

/// Whether a text begins with the characters of another.
pub fn starts_with(text: &str, prefix: &str) -> (starts: bool)
    ensures
        starts == prefix@.is_prefix_of(text@),
{
    let mut wanted = prefix.chars();
    let mut found = text.chars();
    let ghost mut count: int = 0;
    loop
        invariant
            0 <= count <= prefix@.len(),
            count <= text@.len(),
            vstd::std_specs::iter::IteratorSpec::obeys_prophetic_iter_laws(&wanted),
            vstd::std_specs::iter::IteratorSpec::obeys_prophetic_iter_laws(&found),
            vstd::std_specs::iter::IteratorSpec::remaining(&wanted) == prefix@.skip(count),
            vstd::std_specs::iter::IteratorSpec::remaining(&found) == text@.skip(count),
            prefix@.take(count) == text@.take(count),
        decreases prefix@.len() - count,
    {
        let next = wanted.next();
        match next {
            None => {
                assert(count == prefix@.len());
                assert(prefix@.take(count) == prefix@);
                return true;
            },
            Some(want) => {
                assert(prefix@[count] == want);
                match found.next() {
                    None => {
                        return false;
                    },
                    Some(have) => {
                        assert(text@[count] == have);
                        if have != want {
                            assert(!prefix@.is_prefix_of(text@)) by {
                                if prefix@.len() <= text@.len() {
                                    assert(text@.subrange(0, prefix@.len() as int)[count] == have);
                                }
                            }
                            return false;
                        }
                        proof {
                            assert(prefix@.take(count + 1) =~= prefix@.take(count).push(want));
                            assert(text@.take(count + 1) =~= text@.take(count).push(have));
                            count = count + 1;
                        }
                    },
                }
            },
        }
    }
}

fn digit_str(digit: u64) -> (text: &'static str)
    requires
        digit < 10,
    ensures
        text@ == seq![digit_char(digit as nat)],
{
    proof {
        reveal_strlit("0");
        reveal_strlit("1");
        reveal_strlit("2");
        reveal_strlit("3");
        reveal_strlit("4");
        reveal_strlit("5");
        reveal_strlit("6");
        reveal_strlit("7");
        reveal_strlit("8");
        reveal_strlit("9");
    }
    let text: &'static str = if digit == 0 {
        "0"
    } else if digit == 1 {
        "1"
    } else if digit == 2 {
        "2"
    } else if digit == 3 {
        "3"
    } else if digit == 4 {
        "4"
    } else if digit == 5 {
        "5"
    } else if digit == 6 {
        "6"
    } else if digit == 7 {
        "7"
    } else if digit == 8 {
        "8"
    } else {
        "9"
    };
    assert(text@ =~= seq![digit_char(digit as nat)]);
    text
}

/// A natural number in decimal.
pub fn natural_text(number: u64) -> (text: String)
    ensures
        text@ == digits(number as nat),
    decreases number,
{
    if number < 10 {
        digit_str(number).to_owned()
    } else {
        let text = natural_text(number / 10).concat(digit_str(number % 10));
        assert(text@ =~= digits(number as nat));
        text
    }
}

/// An integer in decimal.
pub fn integer_text(number: i32) -> (text: String)
    ensures
        text@ == decimal(number as int),
{
    if number < 0 {
        let magnitude: i64 = -(number as i64);
        proof {
            reveal_strlit("-");
        }
        let text = "-".to_owned().concat(natural_text(magnitude as u64).as_str());
        assert("-"@ =~= seq!['-']);
        text
    } else {
        natural_text(number as u64)
    }
}

proof fn lemma_joined_push(parts: Seq<Seq<char>>, separator: Seq<char>, last: Seq<char>)
    requires
        parts.len() > 0,
    ensures
        joined(parts.push(last), separator) == joined(parts, separator) + separator + last,
    decreases parts.len(),
{
    let more = parts.push(last);
    if parts.len() == 1 {
        assert(more.drop_first() =~= seq![last]);
        assert(joined(seq![last], separator) == last);
    } else {
        lemma_joined_push(parts.drop_first(), separator, last);
        assert(more.drop_first() =~= parts.drop_first().push(last));
        assert(joined(more, separator) =~= joined(parts, separator) + separator + last);
    }
}

/// The parts in order, with the separator between neighbours.
pub fn join(parts: &Vec<String>, separator: &str) -> (text: String)
    ensures
        text@ == joined(parts.deep_view(), separator@),
{
    let mut text = String::new();
    let mut i: usize = 0;
    let ghost all = parts.deep_view();
    assert(joined(all.take(0), separator@) =~= Seq::empty());
    while i < parts.len()
        invariant
            i <= parts@.len(),
            all == parts.deep_view(),
            text@ == joined(all.take(i as int), separator@),
        decreases parts@.len() - i,
    {
        proof {
            assert(all.take(i + 1) =~= all.take(i as int).push(all[i as int]));
            if i > 0 {
                lemma_joined_push(all.take(i as int), separator@, all[i as int]);
            }
        }
        if i > 0 {
            text.append(separator);
        }
        text.append(parts[i].as_str());
        if i == 0 {
            assert(text@ =~= all[0]);
        }
        i = i + 1;
    }
    assert(all.take(i as int) =~= all);
    text
}

/// The value with its two ways of being absent merged.
pub fn flat_text(text: &Option<Option<String>>) -> (merged: Option<String>)
    ensures
        merged.deep_view() == flat(text.deep_view()),
{
    match text {
        Some(Some(text)) => Some(text.clone()),
        _ => None,
    }
}

/// The text, or the empty text when there is none.
pub fn text_or_empty(text: Option<String>) -> (full: String)
    ensures
        full@ == or_empty(text.deep_view()),
{
    match text {
        Some(text) => text,
        None => String::new(),
    }
}

/// The text when there is one and it is not empty.
pub fn non_empty_text(text: Option<String>) -> (kept: Option<String>)
    ensures
        kept.deep_view() == non_empty(text.deep_view()),
{
    match text {
        Some(text) => if text.as_str().is_empty() {
            None
        } else {
            Some(text)
        },
        None => None,
    }
}

/// Appends to a vector.
pub fn push_item<T: DeepView>(items: &mut Vec<T>, item: T)
    ensures
        final(items).deep_view() == old(items).deep_view().push(item.deep_view()),
{
    items.push(item);
    assert(items.deep_view() =~= old(items).deep_view().push(item.deep_view()));
}

} // verus!
