//! Small operations on texts that the rest of the crate builds on.

use vstd::prelude::*;
use vstd::std_specs::iter::IteratorSpec;
use vstd::string::StringExecFns;

verus! {

broadcast use vstd::string::group_string_axioms;

/// Tells whether `text` begins with `prefix`, character by character.
pub fn starts_with(text: &str, prefix: &str) -> (found: bool)
    ensures
        found == prefix@.is_prefix_of(text@),
{
    let mut rest = text.chars();
    let mut wanted = prefix.chars();
    let ghost mut matched: int = 0;
    loop
        invariant
            0 <= matched <= prefix@.len(),
            matched <= text@.len(),
            rest.remaining() == text@.skip(matched),
            wanted.remaining() == prefix@.skip(matched),
            prefix@.take(matched) == text@.take(matched),
        decreases prefix@.len() - matched,
    {
        match wanted.next() {
            None => {
                assert(prefix@.take(matched) =~= prefix@);
                assert(text@.subrange(0, prefix@.len() as int) =~= text@.take(matched));
                return true;
            },
            Some(expected) => {
                match rest.next() {
                    None => {
                        return false;
                    },
                    Some(actual) => {
                        if actual != expected {
                            return false;
                        }
                        proof {
                            assert(prefix@.take(matched + 1) =~= prefix@.take(matched).push(
                                expected,
                            ));
                            assert(text@.take(matched + 1) =~= text@.take(matched).push(actual));
                            matched = matched + 1;
                        }
                    },
                }
            },
        }
    }
}

/// Tells whether two texts are the same, character by character.
pub fn same_text(left: &str, right: &str) -> (same: bool)
    ensures
        same == (left@ == right@),
{
    let same = starts_with(left, right) && starts_with(right, left);
    proof {
        if right@.is_prefix_of(left@) && left@.is_prefix_of(right@) {
            assert(left@ =~= right@);
        }
        if left@ == right@ {
            assert(left@.subrange(0, left@.len() as int) =~= left@);
        }
    }
    same
}

/// The character that stands for a digit below ten.
pub open spec fn digit_char(digit: nat) -> char
    recommends
        digit < 10,
{
    if digit == 0 {
        '0'
    } else if digit == 1 {
        '1'
    } else if digit == 2 {
        '2'
    } else if digit == 3 {
        '3'
    } else if digit == 4 {
        '4'
    } else if digit == 5 {
        '5'
    } else if digit == 6 {
        '6'
    } else if digit == 7 {
        '7'
    } else if digit == 8 {
        '8'
    } else {
        '9'
    }
}

/// A number in decimal notation: its last digit behind the notation of the
/// digits before it, without leading zeros.
pub open spec fn spec_decimal(number: nat) -> Seq<char>
    decreases number,
{
    if number < 10 {
        seq![digit_char(number)]
    } else {
        spec_decimal(number / 10).push(digit_char(number % 10))
    }
}

/// The text of one digit.
fn digit_text(digit: u8) -> (text: &'static str)
    requires
        digit < 10,
    ensures
        text@ == seq![digit_char(digit as nat)],
{
    proof {
        reveal_strlit("0");
        reveal_strlit("1");
        reveal_strlit("2");
        reveal_strlit("3");
        reveal_strlit("4");
        reveal_strlit("5");
        reveal_strlit("6");
        reveal_strlit("7");
        reveal_strlit("8");
        reveal_strlit("9");
    }
    let text = match digit {
        0 => "0",
        1 => "1",
        2 => "2",
        3 => "3",
        4 => "4",
        5 => "5",
        6 => "6",
        7 => "7",
        8 => "8",
        _ => "9",
    };
    assert(text@ =~= seq![digit_char(digit as nat)]);
    text
}

/// Writes a number in decimal notation.
pub fn decimal(number: u128) -> (text: String)
    ensures
        text@ == spec_decimal(number as nat),
    decreases number,
{
    if number < 10 {
        String::from_str(digit_text(number as u8))
    } else {
        let last = digit_text((number % 10) as u8);
        let text = decimal(number / 10).concat(last);
        assert(text@ =~= spec_decimal(number as nat));
        text
    }
}

/// The given lines as one text, with the separator between each two of
/// them.
pub open spec fn spec_join(lines: Seq<Seq<char>>, separator: Seq<char>) -> Seq<char>
    decreases lines.len(),
{
    if lines.len() == 0 {
        Seq::empty()
    } else if lines.len() == 1 {
        lines[0]
    } else {
        spec_join(lines.drop_last(), separator) + separator + lines.last()
    }
}

/// Joins the lines into one text, with the separator between each two of
/// them.
pub fn join(lines: &[String], separator: &str) -> (text: String)
    ensures
        text@ == spec_join(lines@.map_values(|line: String| line@), separator@),
{
    let ghost all = lines@.map_values(|line: String| line@);
    let mut text = String::new();
    let mut i: usize = 0;
    assert(all.take(0) =~= Seq::empty());
    while i < lines.len()
        invariant
            i <= lines.len(),
            all == lines@.map_values(|line: String| line@),
            text@ == spec_join(all.take(i as int), separator@),
        decreases lines.len() - i,
    {
        proof {
            assert(all.take(i + 1).drop_last() =~= all.take(i as int));
            assert(all.take(i + 1).last() == lines@[i as int]@);
        }
        if i > 0 {
            text.append(separator);
        }
        text.append(lines[i].as_str());
        proof {
            if i == 0 {
                assert(text@ =~= lines@[0]@);
            }
        }
        i += 1;
    }
    assert(all.take(i as int) =~= all);
    text
}

} // verus!
