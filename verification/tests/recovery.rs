use matrix_mcp::matrix::recovery::strip_whitespace;

#[test]
fn strip_whitespace_removes_spaces_between_groups() {
    assert_eq!(strip_whitespace("EsTx A2eq HHZa RVYd"), "EsTxA2eqHHZaRVYd");
}

#[test]
fn strip_whitespace_removes_tabs_and_newlines() {
    assert_eq!(strip_whitespace("EsTx\tA2eq\nHHZa"), "EsTxA2eqHHZa");
}

#[test]
fn strip_whitespace_leaves_key_without_whitespace_untouched() {
    assert_eq!(strip_whitespace("EsTxA2eqHHZaRVYd"), "EsTxA2eqHHZaRVYd");
}

#[test]
fn strip_whitespace_of_empty_string_is_empty() {
    assert_eq!(strip_whitespace(""), "");
}

use matrix_mcp::matrix::recovery::{plan_recovery, RecoveryPlan, RecoveryState};

#[test]
fn strip_whitespace_removes_unicode_whitespace() {
    assert_eq!(strip_whitespace("EsTx\u{a0}A2eq\u{2003}HHZa\r\n"), "EsTxA2eqHHZa");
}

#[test]
fn strip_whitespace_keeps_order_and_other_characters() {
    assert_eq!(strip_whitespace(" a-b_c  ÄÖ "), "a-b_cÄÖ");
}

#[test]
fn strip_whitespace_of_only_whitespace_is_empty() {
    assert_eq!(strip_whitespace(" \t\n "), "");
}

#[test]
fn strip_whitespace_is_idempotent_on_example() {
    let once = strip_whitespace("EsTx A2eq HHZa RVYd");
    assert_eq!(strip_whitespace(&once), once);
}

#[test]
fn strip_whitespace_of_concatenation_is_concatenation_of_strips() {
    let a = "EsTx A2eq ";
    let b = " HHZa\tRVYd";
    let whole = format!("{a}{b}");
    assert_eq!(strip_whitespace(&whole), format!("{}{}", strip_whitespace(a), strip_whitespace(b)));
}

#[test]
fn plan_recovery_skips_enabled_recovery() {
    assert_eq!(plan_recovery(RecoveryState::Enabled, "EsTx A2eq"), RecoveryPlan::AlreadyEnabled);
}

#[test]
fn plan_recovery_recovers_with_stripped_key_otherwise() {
    for state in [RecoveryState::Unknown, RecoveryState::Disabled, RecoveryState::Incomplete] {
        assert_eq!(
            plan_recovery(state, "EsTx A2eq\nHHZa"),
            RecoveryPlan::Recover { key: "EsTxA2eqHHZa".to_string() }
        );
    }
}
