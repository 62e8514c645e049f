use evexbot::commands::{GrowthReply, SettingsAction, Strategy, growth_reply,
    history_range_description, parse_strategy, plan_leave_command, plan_welcome_command,
    validate_growth_request, validate_history_range};
use evexbot::cooldown::CooldownGuard;
use evexbot::date::{Date, date_to_ordinal};
use evexbot::forecast::Forecast;
use evexbot::message::{leave_message, milestone_announcement, milestone_followup,
    prediction_description, regular_announcement, regular_followup};
use evexbot::message::{milestone_test_announcement, milestone_test_followup};
use evexbot::notify::{JoinAction, LeaveAction, MILESTONE_TEST_USER_ID, ROLE_ID, has_role,
    milestone_test_allowed, plan_join_event, plan_leave_event};

fn d(year: i64, month: i64, day: i64) -> Date {
    Date { year, month, day }
}

#[test]
fn milestone_announcement_text() {
    let msg = milestone_announcement("<@99>", 200, "Evex");
    assert_eq!(
        msg,
        format!(
            "<@99> さん、ようこそ！\n現在のメンバー数: **200人**\nEvexのメンバーが200人になりました！皆さんありがとうございます！\n良ければ、<#1445478071221223515>で自己紹介お願いします！。"
        )
    );
}

#[test]
fn regular_announcement_text() {
    let msg = regular_announcement("<@99>", 237, 63, 300);
    assert_eq!(
        msg,
        "<@99> さん、ようこそ！\n現在のメンバー数: 237人\nあと 63 人で 300人達成です！\n良ければ、<#1445478071221223515>で自己紹介お願いします！。"
    );
}

#[test]
fn followup_texts() {
    let msg = milestone_followup(300, &d(2024, 5, 1));
    assert_eq!(msg, "次の目標到達予測: 300人: 2024-05-01");
    let edited = regular_followup("hello", 300, &d(2024, 5, 1), 12);
    assert_eq!(edited, "hello\n次の目標到達予測: 300人: 2024-05-01 (あと12日)");
    let overdue = regular_followup("hello", 300, &d(2024, 5, 1), -2);
    assert_eq!(overdue, "hello\n次の目標到達予測: 300人: 2024-05-01 (あと-2日)");
}

#[test]
fn milestone_test_texts() {
    assert_eq!(
        milestone_test_announcement("<@1>", 120, "Evex"),
        "<@1> さん、ようこそ！\n現在のメンバー数: **120人**\nEvexのメンバーが120人になりました！皆さんありがとうございます！"
    );
    assert_eq!(
        milestone_test_followup(220, &d(2024, 9, 1), 40),
        "次の目標到達予測: 220人: 2024-09-01 (あと40日)"
    );
    assert!(milestone_test_allowed(MILESTONE_TEST_USER_ID));
    assert!(!milestone_test_allowed(1));
    assert!(has_role(&vec![3, ROLE_ID, 9], ROLE_ID));
    assert!(!has_role(&vec![3, 9], ROLE_ID));
    assert!(!has_role(&Vec::new(), ROLE_ID));
}

#[test]
fn leave_message_text() {
    assert_eq!(
        leave_message(77, 42),
        "<@77> さんがサーバーを退室しました。\n現在のメンバー数: 42人"
    );
}

#[test]
fn prediction_description_text() {
    assert_eq!(prediction_description(500, &d(2025, 1, 31)), "500人に達する予測日: 2025-01-31");
}

#[test]
fn strategy_names() {
    assert_eq!(parse_strategy("prophet"), Strategy::DelegateOnly);
    assert_eq!(parse_strategy("polynomial"), Strategy::Auto);
    assert_eq!(parse_strategy(""), Strategy::Auto);
}

#[test]
fn growth_request_validation() {
    assert_eq!(validate_growth_request(0, 10), Some("targetを指定してください。"));
    assert_eq!(
        validate_growth_request(5, 1),
        Some("回帰分析を行うためのデータが不足しています。")
    );
    assert!(validate_growth_request(5, 2).is_none());
}

#[test]
fn growth_reply_composition() {
    match growth_reply(100, None, true) {
        GrowthReply::Failed { message } => assert_eq!(message, "予測できませんでした。"),
        _ => panic!("expected failure reply"),
    }
    let day = date_to_ordinal(&d(2024, 8, 1));
    match growth_reply(100, Some(Forecast { day, chart: vec![1, 2] }), true) {
        GrowthReply::Done { date, description, chart, attach_chart } => {
            assert_eq!(date, d(2024, 8, 1));
            assert_eq!(description, "100人に達する予測日: 2024-08-01");
            assert_eq!(chart, vec![1, 2]);
            assert!(attach_chart);
        },
        _ => panic!("expected forecast reply"),
    }
    match growth_reply(100, Some(Forecast { day, chart: vec![1, 2] }), false) {
        GrowthReply::Done { attach_chart, .. } => assert!(!attach_chart),
        _ => panic!("expected forecast reply"),
    }
    match growth_reply(100, Some(Forecast { day, chart: Vec::new() }), true) {
        GrowthReply::Done { attach_chart, .. } => assert!(!attach_chart),
        _ => panic!("expected forecast reply"),
    }
}

#[test]
fn history_range_validation() {
    let a = d(2024, 1, 1);
    let b = d(2024, 6, 1);
    assert!(validate_history_range(&a, &b, 5).is_none());
    assert_eq!(
        validate_history_range(&b, &a, 5),
        Some("開始日は終了日より前である必要があります。")
    );
    assert_eq!(
        validate_history_range(&d(2020, 1, 1), &d(2024, 1, 1), 5),
        Some("日付の範囲は最大3年までにしてください。")
    );
    assert_eq!(
        validate_history_range(&a, &b, 0),
        Some("参加履歴が見つかりません。メンバーの参加日時が取得できませんでした。")
    );
}

#[test]
fn history_range_description_text() {
    assert_eq!(
        history_range_description(&d(2024, 1, 1), &d(2024, 6, 1)),
        "2024-01-01 から 2024-06-01 までのメンバー数推移"
    );
}

#[test]
fn welcome_command_plans() {
    match plan_welcome_command(false, "enable", None, Some(5)) {
        SettingsAction::Reject { reply } => {
            assert_eq!(reply, "コマンドを使用するにはサーバーの管理権限が必要です。")
        },
        _ => panic!("expected rejection"),
    }
    match plan_welcome_command(true, "enable", None, None) {
        SettingsAction::Reject { reply } => {
            assert_eq!(reply, "ONにする場合はチャンネルを指定してください。")
        },
        _ => panic!("expected rejection"),
    }
    match plan_welcome_command(true, "enable", Some(2000), Some(9)) {
        SettingsAction::Reject { reply } => {
            assert_eq!(reply, "5～1000人の間で指定してください。")
        },
        _ => panic!("expected rejection"),
    }
    match plan_welcome_command(true, "enable", None, Some(9)) {
        SettingsAction::Enable { increment, channel, reply } => {
            assert_eq!(increment, 100);
            assert_eq!(channel, 9);
            assert_eq!(
                reply,
                "参加メッセージをONにしました!\n100人ごとに<#9>でお祝いメッセージを送信します"
            );
        },
        _ => panic!("expected enable"),
    }
    match plan_welcome_command(true, "enable", Some(-5), Some(9)) {
        SettingsAction::Reject { reply } => {
            assert_eq!(reply, "5～1000人の間で指定してください。")
        },
        _ => panic!("expected rejection"),
    }
    match plan_welcome_command(true, "enable", None, Some(-3)) {
        SettingsAction::Enable { increment, channel, reply } => {
            assert_eq!(increment, 100);
            assert_eq!(channel, -3);
            assert_eq!(
                reply,
                "参加メッセージをONにしました!\n100人ごとに<#-3>でお祝いメッセージを送信します"
            );
        },
        _ => panic!("expected enable"),
    }
    match plan_welcome_command(true, "disable", None, None) {
        SettingsAction::Disable { reply } => {
            assert_eq!(reply, "参加メッセージを無効にしました!")
        },
        _ => panic!("expected disable"),
    }
    match plan_welcome_command(true, "", None, None) {
        SettingsAction::Reject { reply } => {
            assert_eq!(reply, "enableまたはdisableを指定してください。")
        },
        _ => panic!("expected rejection"),
    }
}

#[test]
fn leave_command_plans() {
    match plan_leave_command(true, "enable", Some(12)) {
        SettingsAction::Enable { increment, channel, reply } => {
            assert_eq!(increment, 0);
            assert_eq!(channel, 12);
            assert_eq!(reply, "退室メッセージをONにしました! チャンネル: <#12>");
        },
        _ => panic!("expected enable"),
    }
    match plan_leave_command(true, "disable", None) {
        SettingsAction::Disable { reply } => {
            assert_eq!(reply, "退室メッセージを無効にしました!")
        },
        _ => panic!("expected disable"),
    }
}

#[test]
fn join_event_plans() {
    let mut guard = CooldownGuard::new();
    // A bot join is ignored without touching the cooldown record.
    assert!(matches!(
        plan_join_event(&mut guard, 1, 10, true, true, 100, Some(5), 200, "<@9>", "G"),
        JoinAction::Ignore
    ));
    // Disabled settings are ignored too.
    assert!(matches!(
        plan_join_event(&mut guard, 1, 10, false, false, 100, Some(5), 200, "<@9>", "G"),
        JoinAction::Ignore
    ));
    // A milestone join announces the celebration.
    match plan_join_event(&mut guard, 1, 10, false, true, 100, Some(5), 200, "<@9>", "G") {
        JoinAction::Announce { channel, evaluation, message } => {
            assert_eq!(channel, 5);
            assert!(evaluation.is_milestone);
            assert_eq!(evaluation.next_target, 300);
            assert_eq!(message, milestone_announcement("<@9>", 200, "G"));
        },
        _ => panic!("expected announcement"),
    }
    // A second delivery of the same join within the window is suppressed.
    assert!(matches!(
        plan_join_event(&mut guard, 1, 11, false, true, 100, Some(5), 200, "<@9>", "G"),
        JoinAction::Ignore
    ));
    // A different population at the same instant is not suppressed; an
    // ordinary join announces the distance to the next milestone.
    match plan_join_event(&mut guard, 2, 11, false, true, 100, Some(6), 237, "<@8>", "G") {
        JoinAction::Announce { channel, evaluation, message } => {
            assert_eq!(channel, 6);
            assert!(!evaluation.is_milestone);
            assert_eq!(message, regular_announcement("<@8>", 237, 63, 300));
        },
        _ => panic!("expected announcement"),
    }
    // Enabled but without a channel: the settings are to be disabled.
    let mut fresh = CooldownGuard::new();
    assert!(matches!(
        plan_join_event(&mut fresh, 3, 10, false, true, 100, None, 200, "<@9>", "G"),
        JoinAction::DisableSettings
    ));
}

#[test]
fn leave_event_plans() {
    assert!(matches!(plan_leave_event(false, Some(5), 10, 7), LeaveAction::Ignore));
    assert!(matches!(plan_leave_event(true, None, 10, 7), LeaveAction::DisableSettings));
    match plan_leave_event(true, Some(5), 10, 7) {
        LeaveAction::Send { channel, message } => {
            assert_eq!(channel, 5);
            assert_eq!(message, leave_message(7, 10));
        },
        _ => panic!("expected send"),
    }
}
