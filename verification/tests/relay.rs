use matrix_mcp::relay::{
    compose_report, compose_report_with_intro, extract_text, fallback_intro_texts, llm_request,
    report_kind, report_title, select_random_text, Commentary, LlmReply, ReportKind,
    RequestStyle, ResourceContent, BACKLOG_INTROS, COMMENTARY_SYSTEM_PROMPT, DAILY_REPORT_INTROS,
    QUICK_WINS_INTROS, REVIEW_SYSTEM_PROMPT,
};

#[test]
fn report_kind_follows_resource_name() {
    assert_eq!(report_kind("tasks://weekly-review"), ReportKind::WeeklyReview);
    assert_eq!(report_kind("tasks://daily"), ReportKind::DailyReport);
    assert_eq!(report_kind("tasks://quick-wins"), ReportKind::QuickWins);
    assert_eq!(report_kind("tasks://someday"), ReportKind::Backlog);
    assert_eq!(report_kind(""), ReportKind::Backlog);
}

#[test]
fn report_kind_prefers_weekly_then_daily_then_quick() {
    assert_eq!(report_kind("daily-weekly"), ReportKind::WeeklyReview);
    assert_eq!(report_kind("quick-daily"), ReportKind::DailyReport);
    assert_eq!(report_kind("Weekly"), ReportKind::Backlog);
}

#[test]
fn report_titles() {
    assert_eq!(report_title(ReportKind::WeeklyReview), "Weekly Review");
    assert_eq!(report_title(ReportKind::DailyReport), "Daily Report");
    assert_eq!(report_title(ReportKind::QuickWins), "Quick Wins");
    assert_eq!(report_title(ReportKind::Backlog), "Backlog");
}

#[test]
fn llm_request_for_weekly_review() {
    let req = llm_request(ReportKind::WeeklyReview, "- did things");
    assert_eq!(req.style, RequestStyle::Review);
    assert_eq!(req.system_prompt, REVIEW_SYSTEM_PROMPT);
    assert_eq!(req.user_message, "Recent activity for: Weekly Review\n\n- did things");
}

#[test]
fn llm_request_for_commentary() {
    let req = llm_request(ReportKind::QuickWins, "- a\n- b");
    assert_eq!(req.style, RequestStyle::Commentary);
    assert_eq!(req.system_prompt, COMMENTARY_SYSTEM_PROMPT);
    assert_eq!(req.user_message, "Report: Quick Wins\n\n- a\n- b");
}

#[test]
fn system_prompts_are_dedented() {
    assert!(REVIEW_SYSTEM_PROMPT.starts_with("You narrate a weekly review"));
    assert!(REVIEW_SYSTEM_PROMPT.ends_with("loosely.\n"));
    assert!(REVIEW_SYSTEM_PROMPT.contains("\n1. Describe behavior, not performance."));
    assert!(COMMENTARY_SYSTEM_PROMPT.starts_with("You narrate household task reports"));
    assert!(COMMENTARY_SYSTEM_PROMPT.contains("\nYou always respond with ONLY a JSON object.\n"));
}

#[test]
fn weekly_review_with_review() {
    let r = compose_report_with_intro(
        ReportKind::WeeklyReview,
        "- x",
        &LlmReply::Review("A fine week.".to_string()),
        "unused",
    );
    assert_eq!(r, "**Weekly Review**\n\nA fine week.\n\n**Changelog**\n\n- x\n");
}

#[test]
fn weekly_review_without_review() {
    let r = compose_report(ReportKind::WeeklyReview, "- x", &LlmReply::Unavailable);
    assert_eq!(r, "**Weekly Review** — **Changelog**\n\n- x\n");
}

#[test]
fn commentary_report_with_intro_and_outro() {
    let reply = LlmReply::Commentary(Commentary {
        intro: "Hey!".to_string(),
        outro: "Farewell.".to_string(),
    });
    assert_eq!(
        compose_report(ReportKind::DailyReport, "- y", &reply),
        "**Daily Report**\n\nHey!\n\n- y\n\nFarewell.\n"
    );
}

#[test]
fn commentary_report_falls_back_to_stock_intro() {
    for (kind, intros, title) in [
        (ReportKind::DailyReport, DAILY_REPORT_INTROS, "Daily Report"),
        (ReportKind::QuickWins, QUICK_WINS_INTROS, "Quick Wins"),
        (ReportKind::Backlog, BACKLOG_INTROS, "Backlog"),
    ] {
        let r = compose_report(kind, "- z", &LlmReply::Unavailable);
        assert!(intros
            .iter()
            .any(|intro| r == format!("**{title}**\n\n{intro}\n\n- z\n")));
    }
}

#[test]
fn compose_report_with_given_intro() {
    assert_eq!(
        compose_report_with_intro(ReportKind::Backlog, "- z", &LlmReply::Unavailable, "Intro."),
        "**Backlog**\n\nIntro.\n\n- z\n"
    );
}

#[test]
fn fallback_intros_per_kind() {
    assert_eq!(fallback_intro_texts(ReportKind::DailyReport), &DAILY_REPORT_INTROS[..]);
    assert_eq!(fallback_intro_texts(ReportKind::QuickWins), &QUICK_WINS_INTROS[..]);
    assert_eq!(fallback_intro_texts(ReportKind::Backlog), &BACKLOG_INTROS[..]);
    assert!(fallback_intro_texts(ReportKind::WeeklyReview).is_empty());
    assert_eq!(DAILY_REPORT_INTROS.len(), 10);
    assert_eq!(DAILY_REPORT_INTROS[0], "Hey! Listen! 🧚 New quests have appeared - time to set out!");
}

#[test]
fn select_random_text_picks_a_given_sentence() {
    let sentences = ["one", "two", "three"];
    for _ in 0..50 {
        assert!(sentences.contains(&select_random_text(&sentences)));
    }
    assert_eq!(select_random_text(&["only"]), "only");
}

#[test]
fn extract_text_joins_text_contents() {
    let contents = vec![
        ResourceContent::Text("first".to_string()),
        ResourceContent::Blob,
        ResourceContent::Text("second".to_string()),
    ];
    assert_eq!(extract_text(&contents), Some("first\nsecond".to_string()));
}

#[test]
fn extract_text_of_nothing_is_none() {
    assert_eq!(extract_text(&vec![]), None);
    assert_eq!(extract_text(&vec![ResourceContent::Blob]), None);
    assert_eq!(extract_text(&vec![ResourceContent::Text(String::new())]), None);
}

#[test]
fn extract_text_of_two_empty_texts_is_a_newline() {
    let contents = vec![ResourceContent::Text(String::new()), ResourceContent::Text(String::new())];
    assert_eq!(extract_text(&contents), Some("\n".to_string()));
}

#[test]
fn extract_text_of_single_text_is_that_text() {
    let contents = vec![ResourceContent::Text("- task one\n- task two".to_string())];
    assert_eq!(extract_text(&contents), Some("- task one\n- task two".to_string()));
}
