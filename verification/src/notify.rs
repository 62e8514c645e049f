//! The milestone detector and notifier: for each join or leave event it
//! decides, from plain values, what the platform layer must do — nothing,
//! disable the settings, or send an announcement — and composes the exact
//! message.

use vstd::prelude::*;

use crate::cooldown::{CooldownGuard, accept_spec};
use crate::message::{leave_message, leave_message_spec, milestone_announcement,
    milestone_announcement_spec, regular_announcement, regular_announcement_spec};
use crate::milestone::{MAX_INCREMENT, MIN_INCREMENT, MilestoneEvaluation, evaluate_milestone,
    next_target_spec};

verus! {

/// The role whose holders may use the settings commands.
pub const ROLE_ID: u64 = 1255803402898898964;

/// The only user the milestone-test command answers to.
pub const MILESTONE_TEST_USER_ID: u64 = 1241397634095120438;

/// Whether the milestone-test command may run for this user.
pub fn milestone_test_allowed(user_id: u64) -> (r: bool)
    ensures
        r <==> user_id == MILESTONE_TEST_USER_ID,
{
    user_id == MILESTONE_TEST_USER_ID
}

/// What the platform layer must do after a join event.
#[derive(Debug)]
pub enum JoinAction {
    /// Nothing: the member is a bot, announcements are disabled, or the
    /// event fell inside the cooldown window of an earlier one.
    Ignore,
    /// Announcements are enabled but no channel is configured: the platform
    /// layer turns the setting off, as the original flow does.
    DisableSettings,
    /// Send `message` to `channel`; on the milestone branch the caller also
    /// renders the history chart and, on either branch, schedules the
    /// asynchronous forecast for `evaluation.next_target`.
    Announce { channel: i64, evaluation: MilestoneEvaluation, message: String },
}

/// Decides how one join event is handled.  The cooldown record is consulted
/// and updated exactly as the guard specifies: a suppressed or ignored event
/// leaves it unchanged; an accepted event records `now`.
pub fn plan_join_event(
    guard: &mut CooldownGuard,
    population: u64,
    now: i64,
    is_bot: bool,
    enabled: bool,
    increment: i64,
    channel: Option<i64>,
    member_count: i64,
    mention: &str,
    guild_name: &str,
) -> (r: JoinAction)
    requires
        old(guard).wf(),
        0 <= now,
        MIN_INCREMENT <= increment <= MAX_INCREMENT,
        0 <= member_count <= i64::MAX - MAX_INCREMENT,
    ensures
        final (guard).wf(),
        is_bot || !enabled ==> r is Ignore && final (guard).view_map() == old(guard).view_map(),
        !is_bot && enabled && !accept_spec(old(guard).view_map(), population, now as int) ==> r
            is Ignore && final (guard).view_map() == old(guard).view_map(),
        !is_bot && enabled && accept_spec(old(guard).view_map(), population, now as int) ==> {
            &&& final (guard).view_map() == old(guard).view_map().insert(population, now)
            &&& channel is None ==> r is DisableSettings
            &&& match channel {
                Option::None => r is DisableSettings,
                Option::Some(ch) => r matches JoinAction::Announce {
                    channel: c,
                    evaluation,
                    message,
                } && c == ch && evaluation.member_count == member_count && evaluation.remainder
                    == member_count as int % increment as int && (evaluation.is_milestone
                    <==> member_count as int % increment as int == 0) && evaluation.next_target
                    == next_target_spec(member_count as int, increment as int) && message@ == (
                if member_count as int % increment as int == 0 {
                    milestone_announcement_spec(mention@, member_count as int, guild_name@)
                } else {
                    regular_announcement_spec(
                        mention@,
                        member_count as int,
                        increment - member_count as int % increment as int,
                        next_target_spec(member_count as int, increment as int),
                    )
                }),
            }
        },
{
    if is_bot {
        return JoinAction::Ignore;
    }
    if !enabled {
        return JoinAction::Ignore;
    }
    if !guard.accept(population, now) {
        return JoinAction::Ignore;
    }
    let ch = match channel {
        Some(c) => c,
        None => {
            return JoinAction::DisableSettings;
        },
    };
    let evaluation = evaluate_milestone(member_count, increment);
    let message = if evaluation.is_milestone {
        milestone_announcement(mention, member_count, guild_name)
    } else {
        regular_announcement(
            mention,
            member_count,
            increment - evaluation.remainder,
            evaluation.next_target,
        )
    };
    JoinAction::Announce { channel: ch, evaluation, message }
}

/// What the platform layer must do after a member leaves.
#[derive(Debug)]
pub enum LeaveAction {
    /// Leave messages are disabled.
    Ignore,
    /// Enabled but no channel configured: the platform layer turns the
    /// setting off.
    DisableSettings,
    /// Send `message` to `channel`.
    Send { channel: i64, message: String },
}

/// Decides how one leave event is handled.
pub fn plan_leave_event(enabled: bool, channel: Option<i64>, member_count: i64, user_id: u64) -> (
    r: LeaveAction)
    requires
        0 <= member_count,
    ensures
        !enabled ==> r is Ignore,
        enabled && channel is None ==> r is DisableSettings,
        enabled ==> match channel {
            Option::None => r is DisableSettings,
            Option::Some(ch) => r matches LeaveAction::Send { channel: c, message } && c == ch
                && message@ == leave_message_spec(user_id as int, member_count as int),
        },
{
    if !enabled {
        return LeaveAction::Ignore;
    }
    match channel {
        None => LeaveAction::DisableSettings,
        Some(ch) => LeaveAction::Send { channel: ch, message: leave_message(user_id, member_count) },
    }
}

/// Whether the member's role list grants use of the settings commands.
pub fn has_role(roles: &Vec<u64>, role: u64) -> (r: bool)
    ensures
        r <==> roles@.contains(role),
{
    let n = roles.len();
    let mut i: usize = 0;
    while i < n
        invariant
            n == roles@.len(),
            i <= n,
            forall|j: int| 0 <= j < i ==> roles@[j] != role,
        decreases n - i,
    {
        if roles[i] == role {
            proof {
                assert(roles@.contains(role));
            }
            return true;
        }
        i = i + 1;
    }
    proof {
        assert(!roles@.contains(role));
    }
    false
}

} // verus!
