//! Priority levels and their spellings.

use vstd::prelude::*;
use vstd::string::*;
use crate::priority_parse_error::PriorityParseError;
use crate::text::{fold_case, spells};
use std::cmp::Ordering;
use std::str::FromStr;
use vstd::std_specs::cmp::PartialOrdSpecImpl;

verus! {

/// How much an item is wanted, from least to most.
#[derive(Clone, Copy, Debug, PartialEq, Eq, Structural)]
pub enum Priority {
    Low,
    Medium,
    High,
    Highest,
}

/// The level that `text` spells, whatever the case of its letters.
pub open spec fn priority_of(text: Seq<char>) -> Option<Priority> {
    let folded = fold_case(text);
    if folded == Priority::Low.spelling() {
        Some(Priority::Low)
    } else if folded == Priority::Medium.spelling() {
        Some(Priority::Medium)
    } else if folded == Priority::High.spelling() {
        Some(Priority::High)
    } else if folded == Priority::Highest.spelling() {
        Some(Priority::Highest)
    } else {
        None
    }
}

impl Priority {
    /// The canonical spelling of the level: its name in lower case.
    pub open spec fn spelling(self) -> Seq<char> {
        match self {
            Priority::Low => seq!['l', 'o', 'w'],
            Priority::Medium => seq!['m', 'e', 'd', 'i', 'u', 'm'],
            Priority::High => seq!['h', 'i', 'g', 'h'],
            Priority::Highest => seq!['h', 'i', 'g', 'h', 'e', 's', 't'],
        }
    }

    /// The place of the level in the order, counted from the least wanted.
    pub open spec fn rank(self) -> nat {
        match self {
            Priority::Low => 0,
            Priority::Medium => 1,
            Priority::High => 2,
            Priority::Highest => 3,
        }
    }

    /// The place of the level in the order.
    fn place(&self) -> (place: u8)
        ensures
            place == self.rank(),
    {
        match self {
            Priority::Low => 0,
            Priority::Medium => 1,
            Priority::High => 2,
            Priority::Highest => 3,
        }
    }

    /// The canonical spelling of the level.
    pub fn to_str(&self) -> (text: &str)
        ensures
            text@ == self.spelling(),
    {
        proof {
            reveal_strlit("low");
            reveal_strlit("medium");
            reveal_strlit("high");
            reveal_strlit("highest");
        }
        let text = match self {
            Priority::Low => "low",
            Priority::Medium => "medium",
            Priority::High => "high",
            Priority::Highest => "highest",
        };
        text
    }

    /// Whether the level is the lowest.
    pub fn is_low(&self) -> (yes: bool)
        ensures
            yes == (*self == Priority::Low),
    {
        *self == Priority::Low
    }

    /// Whether the level is the one that an item has by default.
    pub fn is_medium(&self) -> (yes: bool)
        ensures
            yes == (*self == Priority::Medium),
    {
        *self == Priority::Medium
    }

    /// Whether the level is high; the highest level is not.
    pub fn is_high(&self) -> (yes: bool)
        ensures
            yes == (*self == Priority::High),
    {
        *self == Priority::High
    }

    /// Reads a level strictly: `value` spells one of the four levels, in
    /// any case of its letters, or the reading fails and hands `value` back
    /// in the error. The level that is read spells `value` in lower case.
    pub fn parse(value: &str) -> (level: Result<Priority, PriorityParseError>)
        ensures
            match level {
                Ok(level) => {
                    &&& priority_of(value@) == Some(level)
                    &&& level.spelling() == fold_case(value@)
                },
                Err(error) => {
                    &&& priority_of(value@) is None
                    &&& error.text() == value@
                    &&& forall|level: Priority| level.spelling() != fold_case(value@)
                },
            },
    {
        proof {
            lemma_reading_gives_the_spelling(value@);
        }
        match Priority::lookup(value) {
            Some(level) => Ok(level),
            None => Err(PriorityParseError::InvalidPriority(value.to_owned())),
        }
    }

    /// Looks the level up that `value` spells, in any case of its letters.
    /// A text that spells none is no failure here: it gives no level.
    pub fn lookup(value: &str) -> (level: Option<Priority>)
        ensures
            level == priority_of(value@),
    {
        if spells(value, Priority::Low.to_str()) {
            Some(Priority::Low)
        } else if spells(value, Priority::Medium.to_str()) {
            Some(Priority::Medium)
        } else if spells(value, Priority::High.to_str()) {
            Some(Priority::High)
        } else if spells(value, Priority::Highest.to_str()) {
            Some(Priority::Highest)
        } else {
            None
        }
    }
}

impl PartialOrd for Priority {
    /// Compares two levels by their place in the order.
    fn partial_cmp(&self, other: &Self) -> (order: Option<Ordering>) {
        let mine: u8 = self.place();
        let theirs: u8 = other.place();
        if mine < theirs {
            Some(Ordering::Less)
        } else if mine == theirs {
            Some(Ordering::Equal)
        } else {
            Some(Ordering::Greater)
        }
    }
}

impl PartialOrdSpecImpl for Priority {
    open spec fn obeys_partial_cmp_spec() -> bool {
        true
    }

    /// Levels are ordered as they are declared: low, medium, high, highest.
    open spec fn partial_cmp_spec(&self, other: &Self) -> Option<Ordering> {
        if self.rank() < other.rank() {
            Some(Ordering::Less)
        } else if self.rank() == other.rank() {
            Some(Ordering::Equal)
        } else {
            Some(Ordering::Greater)
        }
    }
}

impl FromStr for Priority {
    type Err = PriorityParseError;

    /// Reads a level strictly, as `Priority::parse` does: `value` spells
    /// one of the four levels, in any case of its letters, and the level
    /// that is read spells `value` in lower case; or the reading fails and
    /// hands `value` back in the error.
    fn from_str(value: &str) -> (level: Result<Priority, PriorityParseError>)
        ensures
            match level {
                Ok(level) => {
                    &&& priority_of(value@) == Some(level)
                    &&& level.spelling() == fold_case(value@)
                },
                Err(error) => {
                    &&& priority_of(value@) is None
                    &&& error.text() == value@
                    &&& forall|level: Priority| level.spelling() != fold_case(value@)
                },
            },
    {
        Priority::parse(value)
    }
}

/// A text that is read as a level is, folded to lower case, the spelling
/// of that level; a text that is not read is, folded, none of the four
/// spellings.
pub proof fn lemma_reading_gives_the_spelling(text: Seq<char>)
    ensures
        match priority_of(text) {
            Some(level) => level.spelling() == fold_case(text),
            None => forall|level: Priority| level.spelling() != fold_case(text),
        },
{
    if priority_of(text) is None {
        assert forall|level: Priority| level.spelling() != fold_case(text) by {
            match level {
                Priority::Low => {},
                Priority::Medium => {},
                Priority::High => {},
                Priority::Highest => {},
            }
        }
    }
}

/// The spelling of a level is in lower case already and is read as that
/// level.
pub proof fn lemma_spelling_is_read(level: Priority)
    ensures
        fold_case(level.spelling()) == level.spelling(),
        priority_of(level.spelling()) == Some(level),
{
    assert(fold_case(level.spelling()) =~= level.spelling());
}

} // verus!
