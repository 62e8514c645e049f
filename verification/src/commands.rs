//! Decision kernels of the command surface: validation, strategy selection
//! and reply composition, all from plain values.

use vstd::prelude::*;

use crate::date::{Date, MIN_DATE_ORDINAL, SCAN_ORDINAL_CAP, date_rep, format_date,
    ordinal_to_date};
use crate::forecast::Forecast;
use crate::message::prediction_description_spec;
use crate::text::{dec_rep, i64_string, int_rep, str_eq, u64_string};

verus! {

/// The closed set of forecast strategies the command surface offers.
#[derive(Clone, Copy, Debug, PartialEq, Eq, Structural)]
pub enum Strategy {
    /// Consult only the external delegate.
    DelegateOnly,
    /// The full chain: delegate first, regression fallback second.
    Auto,
}

/// Maps the command's model name to a strategy: `prophet` selects the
/// delegate alone, every other name the full chain.
pub fn parse_strategy(model: &str) -> (r: Strategy)
    ensures
        r is DelegateOnly <==> model@ == "prophet"@,
{
    if str_eq(model, "prophet") {
        Strategy::DelegateOnly
    } else {
        Strategy::Auto
    }
}

/// Checks an on-demand forecast request.  Returns the reply that rejects it,
/// or `None` when the forecast may proceed.
pub fn validate_growth_request(target: u64, history_len: usize) -> (r: Option<&'static str>)
    ensures
        r is None <==> (target > 0 && history_len >= 2),
        target == 0 ==> (r matches Some(m) && m@ == "targetを指定してください。"@),
        target > 0 && history_len < 2 ==> (r matches Some(m) && m@
            == "回帰分析を行うためのデータが不足しています。"@),
{
    if target == 0 {
        Some("targetを指定してください。")
    } else if history_len < 2 {
        Some("回帰分析を行うためのデータが不足しています。")
    } else {
        None
    }
}

/// The composed reply to an on-demand forecast request.
#[derive(Debug)]
pub enum GrowthReply {
    /// No strategy produced a forecast.
    Failed { message: &'static str },
    /// A forecast was produced; `attach_chart` says whether the caller
    /// attaches the chart bytes to the reply.
    Done { date: Date, description: String, chart: Vec<u8>, attach_chart: bool },
}

/// Composes the reply for a forecast outcome: the predicted date rendered in
/// the embed description, with the chart attached exactly when the caller
/// asked for a graph and the forecast carries one.
pub fn growth_reply(target: u64, outcome: Option<Forecast>, show_graph: bool) -> (r: GrowthReply)
    requires
        outcome matches Some(f) ==> MIN_DATE_ORDINAL <= f.day <= SCAN_ORDINAL_CAP,
    ensures
        outcome is None ==> (r matches GrowthReply::Failed { message } && message@
            == "予測できませんでした。"@),
        outcome matches Some(f) ==> (r matches GrowthReply::Done {
            date,
            description,
            chart,
            attach_chart,
        } && crate::date::date_wf(date.year as int, date.month as int, date.day as int)
            && date.ordinal() == f.day && description@ == prediction_description_spec(
            target as int,
            date,
        ) && chart@ == f.chart@ && (attach_chart <==> (show_graph && f.chart@.len() > 0))),
{
    match outcome {
        None => GrowthReply::Failed { message: "予測できませんでした。" },
        Some(f) => {
            let date = ordinal_to_date(f.day);
            let description = crate::message::prediction_description(target, &date);
            let attach_chart = show_graph && f.chart.len() > 0;
            GrowthReply::Done { date, description, chart: f.chart, attach_chart }
        },
    }
}

/// Checks a member-history range request.  Returns the reply that rejects
/// it, or `None` when the chart may be rendered.
pub fn validate_history_range(start: &Date, end: &Date, history_len: usize) -> (r: Option<
    &'static str,
>)
    requires
        start.valid(),
        end.valid(),
    ensures
        start.ordinal() > end.ordinal() ==> (r matches Some(m) && m@
            == "開始日は終了日より前である必要があります。"@),
        start.ordinal() <= end.ordinal() && end.ordinal() - start.ordinal() > 1095 ==> (r matches
            Some(m) && m@ == "日付の範囲は最大3年までにしてください。"@),
        start.ordinal() <= end.ordinal() && end.ordinal() - start.ordinal() <= 1095
            && history_len == 0 ==> (r matches Some(m) && m@
            == "参加履歴が見つかりません。メンバーの参加日時が取得できませんでした。"@),
        r is None <==> (start.ordinal() <= end.ordinal() && end.ordinal() - start.ordinal() <= 1095
            && history_len > 0),
{
    let s = crate::date::date_to_ordinal(start);
    let e = crate::date::date_to_ordinal(end);
    if s > e {
        Some("開始日は終了日より前である必要があります。")
    } else if e - s > 1095 {
        Some("日付の範囲は最大3年までにしてください。")
    } else if history_len == 0 {
        Some("参加履歴が見つかりません。メンバーの参加日時が取得できませんでした。")
    } else {
        None
    }
}

/// The embed description of a member-history reply.
pub open spec fn history_range_description_spec(start: Date, end: Date) -> Seq<char> {
    date_rep(start.year as int, start.month as int, start.day as int) + " から "@ + date_rep(
        end.year as int,
        end.month as int,
        end.day as int,
    ) + " までのメンバー数推移"@
}

/// Builds the member-history embed description.
pub fn history_range_description(start: &Date, end: &Date) -> (r: String)
    requires
        start.valid(),
        end.valid(),
    ensures
        r@ == history_range_description_spec(*start, *end),
{
    proof {
        reveal_strlit(" から ");
        reveal_strlit(" までのメンバー数推移");
    }
    let mut r = format_date(start);
    r.append(" から ");
    r.append(format_date(end).as_str());
    r.append(" までのメンバー数推移");
    proof {
        assert(r@ =~= history_range_description_spec(*start, *end));
    }
    r
}

/// The reply confirming that join announcements were enabled.
pub open spec fn welcome_enabled_reply_spec(increment: int, channel: int) -> Seq<char> {
    "参加メッセージをONにしました!\n"@ + dec_rep(increment as nat) + "人ごとに<#"@
        + int_rep(channel) + ">でお祝いメッセージを送信します"@
}

/// The reply confirming that leave messages were enabled.
pub open spec fn leave_enabled_reply_spec(channel: int) -> Seq<char> {
    "退室メッセージをONにしました! チャンネル: <#"@ + int_rep(channel) + ">"@
}

/// The settings update a command asks for, with the reply to send.
#[derive(Debug)]
pub enum SettingsAction {
    /// Nothing is written; `reply` explains why.
    Reject { reply: &'static str },
    /// Enable with the given increment and channel and send `reply`.
    Enable { increment: i64, channel: i64, reply: String },
    /// Disable and send `reply`.
    Disable { reply: &'static str },
}

/// Decides the join-announcement settings command: permission first, then
/// the action word, then the channel, then the increment range.
pub fn plan_welcome_command(
    has_permission: bool,
    action: &str,
    increment: Option<i64>,
    channel: Option<i64>,
) -> (r: SettingsAction)
    ensures
        !has_permission ==> (r matches SettingsAction::Reject { reply } && reply@
            == "コマンドを使用するにはサーバーの管理権限が必要です。"@),
        has_permission && action@ == "enable"@ ==> match channel {
            Option::None => r matches SettingsAction::Reject { reply } && reply@
                == "ONにする場合はチャンネルを指定してください。"@,
            Option::Some(ch) => {
                let inc: int = if increment is Some {
                    increment->0 as int
                } else {
                    100
                };
                if inc < 5 || inc > 1000 {
                    r matches SettingsAction::Reject { reply } && reply@
                        == "5～1000人の間で指定してください。"@
                } else {
                    r matches SettingsAction::Enable { increment: i, channel: c, reply } && i
                        == inc && c == ch && reply@ == welcome_enabled_reply_spec(inc, ch as int)
                }
            },
        },
        has_permission && action@ == "disable"@ ==> (r matches SettingsAction::Disable { reply }
            && reply@ == "参加メッセージを無効にしました!"@),
        has_permission && action@ != "enable"@ && action@ != "disable"@ ==> (r matches
            SettingsAction::Reject { reply } && reply@
            == "enableまたはdisableを指定してください。"@),
{
    proof {
        reveal_strlit("enable");
        reveal_strlit("disable");
        assert("enable"@.len() == 6);
        assert("disable"@.len() == 7);
        assert("enable"@ != "disable"@);
    }
    if !has_permission {
        return SettingsAction::Reject {
            reply: "コマンドを使用するにはサーバーの管理権限が必要です。",
        };
    }
    if str_eq(action, "enable") {
        let ch = match channel {
            Some(c) => c,
            None => {
                return SettingsAction::Reject {
                    reply: "ONにする場合はチャンネルを指定してください。",
                };
            },
        };
        let inc = match increment {
            Some(i) => i,
            None => 100,
        };
        if inc < 5 || inc > 1000 {
            return SettingsAction::Reject { reply: "5～1000人の間で指定してください。" };
        }
        proof {
            reveal_strlit("参加メッセージをONにしました!\n");
            reveal_strlit("人ごとに<#");
            reveal_strlit(">でお祝いメッセージを送信します");
        }
        let mut reply = String::from_str("参加メッセージをONにしました!\n");
        reply.append(u64_string(inc as u64).as_str());
        reply.append("人ごとに<#");
        reply.append(i64_string(ch).as_str());
        reply.append(">でお祝いメッセージを送信します");
        proof {
            assert(reply@ =~= welcome_enabled_reply_spec(inc as int, ch as int));
        }
        SettingsAction::Enable { increment: inc, channel: ch, reply }
    } else if str_eq(action, "disable") {
        SettingsAction::Disable { reply: "参加メッセージを無効にしました!" }
    } else {
        SettingsAction::Reject { reply: "enableまたはdisableを指定してください。" }
    }
}

/// Decides the leave-message settings command.
pub fn plan_leave_command(has_permission: bool, action: &str, channel: Option<i64>) -> (r:
    SettingsAction)
    ensures
        !has_permission ==> (r matches SettingsAction::Reject { reply } && reply@
            == "コマンドを使用するにはサーバーの管理権限が必要です。"@),
        has_permission && action@ == "enable"@ ==> match channel {
            Option::None => r matches SettingsAction::Reject { reply } && reply@
                == "ONにする場合はチャンネルを指定してください。"@,
            Option::Some(ch) => r matches SettingsAction::Enable { increment: i, channel: c, reply }
                && i == 0 && c == ch && reply@ == leave_enabled_reply_spec(ch as int),
        },
        has_permission && action@ == "disable"@ ==> (r matches SettingsAction::Disable { reply }
            && reply@ == "退室メッセージを無効にしました!"@),
        has_permission && action@ != "enable"@ && action@ != "disable"@ ==> (r matches
            SettingsAction::Reject { reply } && reply@
            == "enableまたはdisableを指定してください。"@),
{
    proof {
        reveal_strlit("enable");
        reveal_strlit("disable");
        assert("enable"@.len() == 6);
        assert("disable"@.len() == 7);
        assert("enable"@ != "disable"@);
    }
    if !has_permission {
        return SettingsAction::Reject {
            reply: "コマンドを使用するにはサーバーの管理権限が必要です。",
        };
    }
    if str_eq(action, "enable") {
        let ch = match channel {
            Some(c) => c,
            None => {
                return SettingsAction::Reject {
                    reply: "ONにする場合はチャンネルを指定してください。",
                };
            },
        };
        proof {
            reveal_strlit("退室メッセージをONにしました! チャンネル: <#");
            reveal_strlit(">");
        }
        let mut reply = String::from_str("退室メッセージをONにしました! チャンネル: <#");
        reply.append(i64_string(ch).as_str());
        reply.append(">");
        proof {
            assert(reply@ =~= leave_enabled_reply_spec(ch as int));
        }
        SettingsAction::Enable { increment: 0, channel: ch, reply }
    } else if str_eq(action, "disable") {
        SettingsAction::Disable { reply: "退室メッセージを無効にしました!" }
    } else {
        SettingsAction::Reject { reply: "enableまたはdisableを指定してください。" }
    }
}

} // verus!
