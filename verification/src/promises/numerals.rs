//! Promises about numerals.

use crate::discovery::{discovery_report, min_agents};
use crate::text::{decimal, decimal_text, digits_value, is_digit, law_numerals_read_back};
use vstd::prelude::*;

verus! {

/// Every character is a decimal digit.
pub open spec fn all_digits(text: Seq<char>) -> bool {
    forall|i: int| 0 <= i < text.len() ==> '0' as int <= #[trigger] text[i] as int <= '9' as int
}

/// A text denotes a number as a decimal numeral without sign or leading zeros.
pub open spec fn denotes(text: Seq<char>, n: int) -> bool {
    &&& text.len() > 0
    &&& all_digits(text)
    &&& text.len() > 1 ==> text[0] != '0'
    &&& digits_value(text) == n
}

/// A numeral counts for ten times what stands before its last digit, and that digit.
pub proof fn law_digits_value(digits: Seq<char>, last: char)
    requires
        '0' as int <= last as int <= '9' as int,
    ensures
        digits_value(Seq::empty()) == 0,
        digits_value(digits.push(last)) == 10 * digits_value(digits) + (last as int - '0' as int),
{
    assert(digits.push(last).drop_last() =~= digits);
}

/// The numeral that is written for a number denotes it.
pub proof fn lemma_decimal_text_denotes(n: nat)
    ensures
        denotes(decimal_text(n), n as int),
        n > 0 ==> decimal_text(n)[0] != '0',
    decreases n,
{
    law_numerals_read_back(n);
    assert forall|i: int| 0 <= i < decimal_text(n).len() implies '0' as int
        <= #[trigger] decimal_text(n)[i] as int <= '9' as int by {
        assert(is_digit(decimal_text(n)[i]));
    }
    if n >= 10 {
        lemma_decimal_text_denotes(n / 10);
        assert(decimal_text(n)[0] == decimal_text(n / 10)[0]);
    }
}

/// Writing a number gives a numeral that denotes it.
pub proof fn law_decimal_denotes(n: u64, text: String)
    requires
        call_ensures(decimal, (n,), text),
    ensures
        denotes(text@, n as int),
{
    lemma_decimal_text_denotes(n as nat);
}

/// Different numbers are written differently.
pub proof fn law_decimals_tell_numbers_apart(m: u64, a: String, n: u64, b: String)
    requires
        call_ensures(decimal, (m,), a),
        call_ensures(decimal, (n,), b),
    ensures
        a@ == b@ <==> m == n,
{
    lemma_decimal_text_denotes(m as nat);
    lemma_decimal_text_denotes(n as nat);
}

/// The number of agents to wait for is what the variable's digits say, with or without a plus sign
/// before them, where that fits.
pub proof fn law_min_agents_are_read(numeral: &str, digits: Seq<char>, wanted: Option<usize>)
    requires
        call_ensures(min_agents, (Some(numeral),), wanted),
        digits.len() > 0,
        all_digits(digits),
        numeral@ == digits || numeral@ == seq!['+'] + digits,
    ensures
        digits_value(digits) <= usize::MAX ==> wanted == Some(digits_value(digits) as usize),
        digits_value(digits) > usize::MAX ==> wanted is None,
{
    if numeral@ == digits {
        assert(digits[0] != '+');
    } else {
        assert(numeral@.drop_first() =~= digits);
    }
    assert(crate::text::without_plus(numeral@) == digits);
    assert forall|i: int| 0 <= i < digits.len() implies is_digit(#[trigger] digits[i]) by {}
}

/// Nothing but digits, with or without a plus sign before them, is read as a number of agents.
pub proof fn law_min_agents_are_digits(numeral: &str, wanted: Option<usize>)
    requires
        call_ensures(min_agents, (Some(numeral),), wanted),
        wanted is Some,
    ensures
        exists|digits: Seq<char>|
            digits.len() > 0 && #[trigger] all_digits(digits) && (numeral@ == digits || numeral@
                == seq!['+'] + digits) && digits_value(digits) == wanted->0,
{
    let digits = crate::text::without_plus(numeral@);
    assert forall|i: int| 0 <= i < digits.len() implies '0' as int <= #[trigger] digits[i] as int
        <= '9' as int by {
        assert(is_digit(digits[i]));
    }
    assert(all_digits(digits));
    if numeral@ != digits {
        assert(numeral@ =~= seq!['+'] + digits);
    }
}

/// Where the variable is not set, two agents are waited for.
pub proof fn law_two_agents_are_enough(wanted: Option<usize>)
    requires
        call_ensures(min_agents, (None::<&str>,), wanted),
    ensures
        wanted == Some(2usize),
{
}

/// A number of agents that was written is the number that is read.
pub proof fn law_min_agents_read_back(n: u64, text: String, numeral: &str, wanted: Option<usize>)
    requires
        call_ensures(decimal, (n,), text),
        numeral@ == text@,
        call_ensures(min_agents, (Some(numeral),), wanted),
    ensures
        n <= usize::MAX ==> wanted == Some(n as usize),
{
    law_numerals_read_back(n as nat);
}

/// The report on discovery names the agent, and its numeral denotes the seconds that it took.
pub proof fn law_discovery_is_reported(agent_name: &str, seconds: u64, report: String)
    requires
        call_ensures(discovery_report, (agent_name, seconds), report),
    ensures
        exists|numeral: Seq<char>| #[trigger]
            denotes(numeral, seconds as int) && report@ == "Discovery for agent "@ + agent_name@
                + " took: "@ + numeral + "s"@,
{
    lemma_decimal_text_denotes(seconds as nat);
}

} // verus!
