//! The decisions of the interactive menus: what an answer means and which
//! entry a choice stands for. Prompting and reading are the caller's.

use vstd::prelude::*;
use crate::text::{chars_of, text_eq};

verus! {

/// The interactive front end, bound to a configuration file.
#[derive(Debug)]
pub struct InteractiveCLI {
    /// The configuration file that every menu entry reads and writes.
    pub config_path: String,
}

impl InteractiveCLI {
    /// A front end that works on the configuration file at `config_path`.
    pub fn new(config_path: String) -> (cli: Self)
        ensures
            cli.config_path == config_path,
    {
        InteractiveCLI { config_path }
    }
}

/// What an answer to a yes-or-no question means: `y` and `yes` are yes, `n`
/// and `no` are no, anything else is the default.
pub open spec fn confirmation(answer: Seq<char>, default: bool) -> bool {
    if answer == "y"@ || answer == "yes"@ {
        true
    } else if answer == "n"@ || answer == "no"@ {
        false
    } else {
        default
    }
}

/// What the answer to a yes-or-no question means. `answer` is what was
/// entered, without surrounding white space and in lower case.
pub fn confirmed(answer: &str, default: bool) -> (yes: bool)
    ensures
        yes == confirmation(answer@, default),
{
    if text_eq(answer, "y") || text_eq(answer, "yes") {
        true
    } else if text_eq(answer, "n") || text_eq(answer, "no") {
        false
    } else {
        default
    }
}

/// An entry of the main menu.
#[derive(Clone, Copy, Debug, PartialEq, Eq, Structural)]
pub enum MainMenuEntry {
    /// Show the configuration.
    ShowConfig,
    /// Add, edit or remove subscriptions.
    ManageSubscriptions,
    /// Download the subscriptions.
    UpdateSubscriptions,
    /// Update the core.
    UpdateSingboxCore,
    /// Update the alternative core.
    UpdateMihomoCore,
    /// Download the subscriptions and update both cores.
    RunAllUpdates,
    /// Change the settings.
    Settings,
    /// Leave.
    Quit,
}

/// How many entries the main menu has.
pub const MAIN_MENU_ENTRIES: usize = 8;

/// The entry of the main menu at position `index`, counted from 0.
pub fn main_menu_entry(index: usize) -> (entry: Option<MainMenuEntry>)
    ensures
        entry == (match index {
            0 => Some(MainMenuEntry::ShowConfig),
            1 => Some(MainMenuEntry::ManageSubscriptions),
            2 => Some(MainMenuEntry::UpdateSubscriptions),
            3 => Some(MainMenuEntry::UpdateSingboxCore),
            4 => Some(MainMenuEntry::UpdateMihomoCore),
            5 => Some(MainMenuEntry::RunAllUpdates),
            6 => Some(MainMenuEntry::Settings),
            7 => Some(MainMenuEntry::Quit),
            _ => None,
        }),
        entry is Some <==> index < MAIN_MENU_ENTRIES,
{
    match index {
        0 => Some(MainMenuEntry::ShowConfig),
        1 => Some(MainMenuEntry::ManageSubscriptions),
        2 => Some(MainMenuEntry::UpdateSubscriptions),
        3 => Some(MainMenuEntry::UpdateSingboxCore),
        4 => Some(MainMenuEntry::UpdateMihomoCore),
        5 => Some(MainMenuEntry::RunAllUpdates),
        6 => Some(MainMenuEntry::Settings),
        7 => Some(MainMenuEntry::Quit),
        _ => None,
    }
}

/// An entry of the subscription menu, which lists the subscriptions and
/// then offers to add one and to go back.
#[derive(Clone, Copy, Debug, PartialEq, Eq, Structural)]
pub enum SubscriptionMenuEntry {
    /// Edit the subscription at this position.
    Edit(usize),
    /// Add a subscription.
    Add,
    /// Go back to the main menu.
    Back,
}

/// The entry at position `index`, counted from 0, of the subscription menu
/// of a configuration with `subscriptions` subscriptions.
pub fn subscription_menu_entry(index: usize, subscriptions: usize) -> (entry: Option<SubscriptionMenuEntry>)
    ensures
        entry == (if index < subscriptions {
            Some(SubscriptionMenuEntry::Edit(index))
        } else if index == subscriptions {
            Some(SubscriptionMenuEntry::Add)
        } else if index == subscriptions + 1 {
            Some(SubscriptionMenuEntry::Back)
        } else {
            None
        }),
{
    if index < subscriptions {
        Some(SubscriptionMenuEntry::Edit(index))
    } else if index == subscriptions {
        Some(SubscriptionMenuEntry::Add)
    } else if index - subscriptions == 1 {
        Some(SubscriptionMenuEntry::Back)
    } else {
        None
    }
}

/// Whether `c` is a decimal digit.
pub open spec fn is_digit(c: char) -> bool {
    '0' <= c <= '9'
}

/// The number that the decimal digits `digits` write.
pub open spec fn decimal_value(digits: Seq<char>) -> nat
    decreases digits.len(),
{
    if digits.len() == 0 {
        0
    } else {
        decimal_value(digits.drop_last()) * 10 + (digits.last() as nat - '0' as nat) as nat
    }
}

/// `text` without the plus sign that may stand before a number.
pub open spec fn unsigned_part(text: Seq<char>) -> Seq<char> {
    if text.len() > 0 && text[0] == '+' {
        text.drop_first()
    } else {
        text
    }
}

/// The number that `text` writes: one or more decimal digits, with or
/// without a plus sign before them. Anything else writes no number.
pub open spec fn written_number(text: Seq<char>) -> Option<nat> {
    let digits = unsigned_part(text);
    if digits.len() > 0 && forall|i: int| 0 <= i < digits.len() ==> is_digit(#[trigger] digits[i]) {
        Some(decimal_value(digits))
    } else {
        None
    }
}

/// More digits never write a smaller number.
pub proof fn lemma_decimal_value_grows(digits: Seq<char>, k: int)
    requires
        0 <= k <= digits.len(),
    ensures
        decimal_value(digits.take(k)) <= decimal_value(digits),
    decreases digits.len() - k,
{
    if k < digits.len() {
        lemma_decimal_value_grows(digits, k + 1);
        assert(digits.take(k + 1).drop_last() =~= digits.take(k));
        assert(decimal_value(digits.take(k)) * 10 >= decimal_value(digits.take(k))) by (nonlinear_arith);
    } else {
        assert(digits.take(k) =~= digits);
    }
}

/// The number that `text` writes, where it writes one that fits into 64
/// bits. `text` is what was entered, without surrounding white space.
pub fn read_number(text: &str) -> (number: Option<u64>)
    ensures
        number == (match written_number(text@) {
            Some(value) => if value <= u64::MAX {
                Some(value as u64)
            } else {
                None
            },
            None => None,
        }),
{
    let chars = chars_of(text);
    let start: usize = if chars.len() > 0 && chars[0] == '+' {
        1
    } else {
        0
    };
    let ghost digits = unsigned_part(text@);
    assert(digits =~= chars@.skip(start as int));
    if start == chars.len() {
        return None;
    }
    let mut value: u64 = 0;
    let mut i: usize = start;
    while i < chars.len()
        invariant
            start <= i <= chars.len(),
            digits == unsigned_part(text@),
            digits == chars@.skip(start as int),
            forall|j: int| 0 <= j < i - start ==> is_digit(#[trigger] digits[j]),
            value == decimal_value(digits.take(i - start)),
        decreases chars.len() - i,
    {
        let c = chars[i];
        assert(c == digits[i - start]);
        if !('0' <= c && c <= '9') {
            assert(!is_digit(digits[i - start]));
            return None;
        }
        let digit: u64 = (c as u64) - ('0' as u64);
        proof {
            let longer = digits.take(i - start + 1);
            assert(longer.drop_last() =~= digits.take(i - start));
            assert(longer.last() == c);
            assert(decimal_value(longer) == value * 10 + digit);
            lemma_decimal_value_grows(digits, i - start + 1);
        }
        if value > (u64::MAX - digit) / 10 {
            assert(value * 10 + digit > u64::MAX);
            return None;
        }
        value = value * 10 + digit;
        i += 1;
    }
    assert(digits.take(i - start) =~= digits);
    Some(value)
}

/// The entry that the answer `text` stands for in a menu of `count`
/// entries, numbered from 1: `None` where it names no entry, and the
/// question is to be asked again.
pub fn chosen_entry(text: &str, count: usize) -> (entry: Option<usize>)
    ensures
        entry == (match written_number(text@) {
            Some(choice) => if 0 < choice <= count {
                Some((choice - 1) as usize)
            } else {
                None
            },
            None => None,
        }),
{
    match read_number(text) {
        Some(choice) => if choice > 0 && choice <= count as u64 {
            Some((choice - 1) as usize)
        } else {
            None
        },
        None => None,
    }
}

} // verus!
