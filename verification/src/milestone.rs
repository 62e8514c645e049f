//! Milestone arithmetic: whether a member count sits exactly on a configured
//! increment boundary, and which count the next celebration is owed at.

use vstd::prelude::*;

verus! {

/// Smallest increment the settings store may hand over.
pub const MIN_INCREMENT: i64 = 5;

/// Largest increment the settings store may hand over.
pub const MAX_INCREMENT: i64 = 1000;

/// The outcome of evaluating one member count against an increment.
#[derive(Clone, Copy, Debug, PartialEq, Eq, Structural)]
pub struct MilestoneEvaluation {
    pub member_count: i64,
    pub remainder: i64,
    pub is_milestone: bool,
    pub next_target: i64,
}

/// The next count at which a celebration is owed: the following multiple of
/// `increment`, one full increment away when `count` is itself a multiple.
pub open spec fn next_target_spec(count: int, increment: int) -> int {
    if count % increment == 0 {
        count + increment
    } else {
        count + (increment - count % increment)
    }
}

/// Evaluates a member count against the configured increment.
pub fn evaluate_milestone(member_count: i64, increment: i64) -> (r: MilestoneEvaluation)
    requires
        0 <= member_count,
        1 <= increment <= MAX_INCREMENT,
        member_count + increment <= i64::MAX,
    ensures
        r.member_count == member_count,
        r.remainder == member_count as int % increment as int,
        r.is_milestone <==> member_count as int % increment as int == 0,
        r.next_target == next_target_spec(member_count as int, increment as int),
        member_count < r.next_target <= member_count + increment,
{
    let remainder = member_count % increment;
    if remainder == 0 {
        MilestoneEvaluation {
            member_count,
            remainder,
            is_milestone: true,
            next_target: member_count + increment,
        }
    } else {
        MilestoneEvaluation {
            member_count,
            remainder,
            is_milestone: false,
            next_target: member_count + (increment - remainder),
        }
    }
}

} // verus!
