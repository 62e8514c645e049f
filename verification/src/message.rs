//! Composition of every user-visible message: each builder's contract pins
//! the exact character sequence.

use vstd::prelude::*;

use crate::date::{Date, date_rep, format_date};
use crate::text::{dec_rep, int_rep, i64_string, u64_string};

verus! {

/// The celebratory announcement sent when a milestone is reached.
pub open spec fn milestone_announcement_spec(
    mention: Seq<char>,
    member_count: int,
    guild_name: Seq<char>,
) -> Seq<char> {
    mention + " さん、ようこそ！\n現在のメンバー数: **"@ + dec_rep(member_count as nat)
        + "人**\n"@ + guild_name + "のメンバーが"@ + dec_rep(member_count as nat)
        + "人になりました！皆さんありがとうございます！\n良ければ、<#1445478071221223515>で自己紹介お願いします！。"@
}

/// Builds the milestone announcement.
pub fn milestone_announcement(mention: &str, member_count: i64, guild_name: &str) -> (r: String)
    requires
        0 <= member_count,
    ensures
        r@ == milestone_announcement_spec(mention@, member_count as int, guild_name@),
{
    proof {
        reveal_strlit(" さん、ようこそ！\n現在のメンバー数: **");
        reveal_strlit("人**\n");
        reveal_strlit("のメンバーが");
        reveal_strlit("人になりました！皆さんありがとうございます！\n良ければ、<#1445478071221223515>で自己紹介お願いします！。");
    }
    let count = u64_string(member_count as u64);
    let mut r = mention.to_owned();
    r.append(" さん、ようこそ！\n現在のメンバー数: **");
    r.append(count.as_str());
    r.append("人**\n");
    r.append(guild_name);
    r.append("のメンバーが");
    r.append(count.as_str());
    r.append("人になりました！皆さんありがとうございます！\n良ければ、<#1445478071221223515>で自己紹介お願いします！。");
    proof {
        assert(r@ =~= milestone_announcement_spec(mention@, member_count as int, guild_name@));
    }
    r
}

/// The ordinary announcement sent when a join does not land on a milestone.
pub open spec fn regular_announcement_spec(
    mention: Seq<char>,
    member_count: int,
    remaining: int,
    next_target: int,
) -> Seq<char> {
    mention + " さん、ようこそ！\n現在のメンバー数: "@ + dec_rep(member_count as nat)
        + "人\nあと "@ + dec_rep(remaining as nat) + " 人で "@ + dec_rep(next_target as nat)
        + "人達成です！\n良ければ、<#1445478071221223515>で自己紹介お願いします！。"@
}

/// Builds the ordinary join announcement, which names how many more members
/// the next milestone needs.
pub fn regular_announcement(mention: &str, member_count: i64, remaining: i64, next_target: i64) -> (
    r: String)
    requires
        0 <= member_count,
        0 <= remaining,
        0 <= next_target,
    ensures
        r@ == regular_announcement_spec(
            mention@,
            member_count as int,
            remaining as int,
            next_target as int,
        ),
{
    proof {
        reveal_strlit(" さん、ようこそ！\n現在のメンバー数: ");
        reveal_strlit("人\nあと ");
        reveal_strlit(" 人で ");
        reveal_strlit("人達成です！\n良ければ、<#1445478071221223515>で自己紹介お願いします！。");
    }
    let mut r = mention.to_owned();
    r.append(" さん、ようこそ！\n現在のメンバー数: ");
    r.append(u64_string(member_count as u64).as_str());
    r.append("人\nあと ");
    r.append(u64_string(remaining as u64).as_str());
    r.append(" 人で ");
    r.append(u64_string(next_target as u64).as_str());
    r.append("人達成です！\n良ければ、<#1445478071221223515>で自己紹介お願いします！。");
    proof {
        assert(r@ =~= regular_announcement_spec(
            mention@,
            member_count as int,
            remaining as int,
            next_target as int,
        ));
    }
    r
}

/// The follow-up sent once the background forecast for the next milestone
/// succeeds after a milestone announcement.
pub open spec fn milestone_followup_spec(next_target: int, d: Date) -> Seq<char> {
    "次の目標到達予測: "@ + dec_rep(next_target as nat) + "人: "@ + date_rep(
        d.year as int,
        d.month as int,
        d.day as int,
    )
}

/// Builds the milestone follow-up message.
pub fn milestone_followup(next_target: i64, d: &Date) -> (r: String)
    requires
        0 <= next_target,
        crate::date::date_wf(d.year as int, d.month as int, d.day as int),
    ensures
        r@ == milestone_followup_spec(next_target as int, *d),
{
    proof {
        reveal_strlit("次の目標到達予測: ");
        reveal_strlit("人: ");
    }
    let mut r = String::from_str("次の目標到達予測: ");
    r.append(u64_string(next_target as u64).as_str());
    r.append("人: ");
    r.append(format_date(d).as_str());
    proof {
        assert(r@ =~= milestone_followup_spec(next_target as int, *d));
    }
    r
}

/// The edited announcement after the background forecast succeeds for an
/// ordinary join: the original text with the prediction appended.
pub open spec fn regular_followup_spec(
    original: Seq<char>,
    next_target: int,
    d: Date,
    days_remaining: int,
) -> Seq<char> {
    original + "\n次の目標到達予測: "@ + dec_rep(next_target as nat) + "人: "@ + date_rep(
        d.year as int,
        d.month as int,
        d.day as int,
    ) + " (あと"@ + int_rep(days_remaining) + "日)"@
}

/// Builds the edited text of an ordinary announcement once the forecast for
/// the next milestone is known.
pub fn regular_followup(original: &str, next_target: i64, d: &Date, days_remaining: i64) -> (r:
    String)
    requires
        0 <= next_target,
        crate::date::date_wf(d.year as int, d.month as int, d.day as int),
    ensures
        r@ == regular_followup_spec(original@, next_target as int, *d, days_remaining as int),
{
    proof {
        reveal_strlit("\n次の目標到達予測: ");
        reveal_strlit("人: ");
        reveal_strlit(" (あと");
        reveal_strlit("日)");
    }
    let mut r = original.to_owned();
    r.append("\n次の目標到達予測: ");
    r.append(u64_string(next_target as u64).as_str());
    r.append("人: ");
    r.append(format_date(d).as_str());
    r.append(" (あと");
    r.append(i64_string(days_remaining).as_str());
    r.append("日)");
    proof {
        assert(r@ =~= regular_followup_spec(
            original@,
            next_target as int,
            *d,
            days_remaining as int,
        ));
    }
    r
}

/// The message sent when a member leaves.
pub open spec fn leave_message_spec(user_id: int, member_count: int) -> Seq<char> {
    "<@"@ + dec_rep(user_id as nat)
        + "> さんがサーバーを退室しました。\n現在のメンバー数: "@ + dec_rep(
        member_count as nat,
    ) + "人"@
}

/// Builds the leave message.
pub fn leave_message(user_id: u64, member_count: i64) -> (r: String)
    requires
        0 <= member_count,
    ensures
        r@ == leave_message_spec(user_id as int, member_count as int),
{
    proof {
        reveal_strlit("<@");
        reveal_strlit("> さんがサーバーを退室しました。\n現在のメンバー数: ");
        reveal_strlit("人");
    }
    let mut r = String::from_str("<@");
    r.append(u64_string(user_id).as_str());
    r.append("> さんがサーバーを退室しました。\n現在のメンバー数: ");
    r.append(u64_string(member_count as u64).as_str());
    r.append("人");
    proof {
        assert(r@ =~= leave_message_spec(user_id as int, member_count as int));
    }
    r
}

/// The announcement composed by the administrator's milestone test, which
/// celebrates the current count without the introduction invitation.
pub open spec fn milestone_test_announcement_spec(
    mention: Seq<char>,
    member_count: int,
    guild_name: Seq<char>,
) -> Seq<char> {
    mention + " さん、ようこそ！\n現在のメンバー数: **"@ + dec_rep(member_count as nat)
        + "人**\n"@ + guild_name + "のメンバーが"@ + dec_rep(member_count as nat)
        + "人になりました！皆さんありがとうございます！"@
}

/// Builds the milestone-test announcement.
pub fn milestone_test_announcement(mention: &str, member_count: i64, guild_name: &str) -> (r:
    String)
    requires
        0 <= member_count,
    ensures
        r@ == milestone_test_announcement_spec(mention@, member_count as int, guild_name@),
{
    proof {
        reveal_strlit(" さん、ようこそ！\n現在のメンバー数: **");
        reveal_strlit("人**\n");
        reveal_strlit("のメンバーが");
        reveal_strlit("人になりました！皆さんありがとうございます！");
    }
    let count = u64_string(member_count as u64);
    let mut r = mention.to_owned();
    r.append(" さん、ようこそ！\n現在のメンバー数: **");
    r.append(count.as_str());
    r.append("人**\n");
    r.append(guild_name);
    r.append("のメンバーが");
    r.append(count.as_str());
    r.append("人になりました！皆さんありがとうございます！");
    proof {
        assert(r@ =~= milestone_test_announcement_spec(
            mention@,
            member_count as int,
            guild_name@,
        ));
    }
    r
}

/// The follow-up the milestone test sends once its forecast is known.
pub open spec fn milestone_test_followup_spec(next_target: int, d: Date, days_remaining: int) -> Seq<
    char,
> {
    "次の目標到達予測: "@ + dec_rep(next_target as nat) + "人: "@ + date_rep(
        d.year as int,
        d.month as int,
        d.day as int,
    ) + " (あと"@ + int_rep(days_remaining) + "日)"@
}

/// Builds the milestone-test follow-up message.
pub fn milestone_test_followup(next_target: i64, d: &Date, days_remaining: i64) -> (r: String)
    requires
        0 <= next_target,
        crate::date::date_wf(d.year as int, d.month as int, d.day as int),
    ensures
        r@ == milestone_test_followup_spec(next_target as int, *d, days_remaining as int),
{
    proof {
        reveal_strlit("次の目標到達予測: ");
        reveal_strlit("人: ");
        reveal_strlit(" (あと");
        reveal_strlit("日)");
    }
    let mut r = String::from_str("次の目標到達予測: ");
    r.append(u64_string(next_target as u64).as_str());
    r.append("人: ");
    r.append(format_date(d).as_str());
    r.append(" (あと");
    r.append(i64_string(days_remaining).as_str());
    r.append("日)");
    proof {
        assert(r@ =~= milestone_test_followup_spec(next_target as int, *d, days_remaining as int));
    }
    r
}

/// The embed description of an on-demand forecast reply.
pub open spec fn prediction_description_spec(target: int, d: Date) -> Seq<char> {
    dec_rep(target as nat) + "人に達する予測日: "@ + date_rep(
        d.year as int,
        d.month as int,
        d.day as int,
    )
}

/// Builds the on-demand forecast description.
pub fn prediction_description(target: u64, d: &Date) -> (r: String)
    requires
        crate::date::date_wf(d.year as int, d.month as int, d.day as int),
    ensures
        r@ == prediction_description_spec(target as int, *d),
{
    proof {
        reveal_strlit("人に達する予測日: ");
    }
    let mut r = u64_string(target);
    r.append("人に達する予測日: ");
    r.append(format_date(d).as_str());
    proof {
        assert(r@ =~= prediction_description_spec(target as int, *d));
    }
    r
}

} // verus!
