//! Which of two commands of the user is the newer.

use core::cmp::Ordering;
use vstd::prelude::*;
use crate::commands::UserCommand;

verus! {

/// How `a` stands to `b`.
pub open spec fn order_of(a: nat, b: nat) -> Ordering {
    if a < b {
        Ordering::Less
    } else if a == b {
        Ordering::Equal
    } else {
        Ordering::Greater
    }
}

impl PartialOrd for UserCommand {
    /// A command is greater than another where both ask the same and it is
    /// the more recent; a stamped command is more recent than one without
    /// stamp. Commands that ask different things do not compare, nor do two
    /// without stamp.
    fn partial_cmp(&self, other: &Self) -> (order: Option<Ordering>) {
        if self.command != other.command {
            None
        } else {
            match (self.timestamp, other.timestamp) {
                (Some(_), None) => Some(Ordering::Greater),
                (Some(timestamp), Some(other_timestamp)) => {
                    let mine = timestamp.millis();
                    let theirs = other_timestamp.millis();
                    if mine < theirs {
                        Some(Ordering::Less)
                    } else if mine == theirs {
                        Some(Ordering::Equal)
                    } else {
                        Some(Ordering::Greater)
                    }
                },
                (None, Some(_)) => Some(Ordering::Less),
                (None, None) => None,
            }
        }
    }
}

impl vstd::std_specs::cmp::PartialOrdSpecImpl for UserCommand {
    open spec fn obeys_partial_cmp_spec() -> bool {
        true
    }

    open spec fn partial_cmp_spec(&self, other: &UserCommand) -> Option<Ordering> {
        if self.command != other.command {
            None
        } else {
            match (self.timestamp, other.timestamp) {
                (Some(_), None) => Some(Ordering::Greater),
                (Some(timestamp), Some(other_timestamp)) => Some(
                    order_of(timestamp@, other_timestamp@),
                ),
                (None, Some(_)) => Some(Ordering::Less),
                (None, None) => None,
            }
        }
    }
}

} // verus!
