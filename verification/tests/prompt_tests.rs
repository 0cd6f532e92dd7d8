use pointer::prompt::StepLog;
use pointer::prompt::{
    base_hint_for, check_reply, choice_content, fallback_step, format_history,
    format_history_entry, history_action, http_error, max_tokens, parse_retry_after,
    standard_user_message, strip_code_fences, uitars_user_message, AttemptOutcome, ReplyCheck,
    RetryPlan, RetryVerdict, MAX_STEPS_HINT, MAX_TOKENS_ERROR, NO_CONTENT_ERROR, STUCK_HINT_TAIL,
};

fn entries(actions: &[&str]) -> Vec<String> {
    actions
        .iter()
        .enumerate()
        .map(|(i, a)| format_history_entry(i + 1, a, "something"))
        .collect()
}

#[test]
fn history_entry_format() {
    assert_eq!(format_history_entry(3, "Click", "the File menu"), "Step 3 — Click: the File menu");
}

#[test]
fn history_block() {
    assert_eq!(format_history(&[]), "None yet.");
    let h = vec!["Step 1 — Click: a".to_string(), "Step 2 — Type: b".to_string()];
    assert_eq!(format_history(&h), "1. Step 1 — Click: a\n2. Step 2 — Type: b");
}

#[test]
fn action_of_entry() {
    let a: Vec<char> = "Click".chars().collect();
    assert_eq!(history_action("Step 1 — Click: the dock"), Some(a));
    assert_eq!(history_action("no dash here"), None);
    let whole: Vec<char> = "x".chars().collect();
    assert_eq!(history_action("a — x"), Some(whole));
}

#[test]
fn no_hint_for_short_or_varied_history() {
    assert_eq!(base_hint_for(&entries(&["Click", "Click"])), "");
    assert_eq!(base_hint_for(&entries(&["Click", "Type", "Click"])), "");
}

#[test]
fn loop_hint_after_three_repeats() {
    let h = entries(&["Type", "Click", "Click", "Click"]);
    let expected = format!(
        "\n\nSTUCK LOOP DETECTED: You have repeated the action 'Click{}",
        STUCK_HINT_TAIL
    );
    assert_eq!(base_hint_for(&h), expected);
    assert!(expected.contains("' 3 times with no progress. STOP repeating this action."));
}

#[test]
fn cap_hint_from_twenty_steps() {
    let actions: Vec<&str> = (0..20).map(|i| if i % 2 == 0 { "Click" } else { "Type" }).collect();
    assert_eq!(base_hint_for(&entries(&actions[..19])), "");
    assert_eq!(base_hint_for(&entries(&actions)), MAX_STEPS_HINT);
    let same = vec!["Scroll"; 21];
    let h = entries(&same);
    let hint = base_hint_for(&h);
    assert!(hint.starts_with("\n\nSTUCK LOOP DETECTED: You have repeated the action 'Scroll'"));
    assert!(hint.ends_with(MAX_STEPS_HINT));
}

#[test]
fn uitars_message() {
    let m = uitars_user_message("open mail", "Finder", "Desktop", Some("https://x"), "None yet.", "");
    assert_eq!(
        m,
        "Task: open mail\nApp: Finder\nWindow: Desktop\nurl:    https://x\nSteps done:\nNone yet.\n"
    );
    let m = uitars_user_message("g", "A", "W", None, "1. s", "EXTRA");
    assert_eq!(m, "Task: g\nApp: A\nWindow: W\nSteps done:\n1. s\nEXTRA");
}

#[test]
fn code_fences_removed() {
    assert_eq!(strip_code_fences("  ```json\n{\"a\":1}\n```  "), "{\"a\":1}");
    assert_eq!(strip_code_fences("```\n{}\n```"), "{}");
    assert_eq!(strip_code_fences("{\"x\":2}"), "{\"x\":2}");
}

#[test]
fn token_budgets() {
    assert_eq!(max_tokens(true, false), 256);
    assert_eq!(max_tokens(false, false), 1024);
    assert_eq!(max_tokens(false, true), 8192);
    assert_eq!(max_tokens(true, true), 8192);
}

#[test]
fn reply_screening() {
    match check_reply("{\"error\":\"content must be a string\"}", 400, "llama-text", None) {
        ReplyCheck::NotVision(m) => assert_eq!(
            m,
            "Model 'llama-text' does not support vision/images. Use a vision-capable model such as meta-llama/llama-4-scout-17b-16e-instruct"
        ),
        _ => panic!("expected NotVision"),
    }
    assert!(matches!(
        check_reply("{\"code\":\"rate_limit_exceeded\"}", 429, "m", Some("slow down")),
        ReplyCheck::RateLimited
    ));
    assert!(matches!(check_reply("{\"choices\":[]}", 200, "m", None), ReplyCheck::Proceed));
    match check_reply("{}", 400, "m", Some("input required: specific 'prompt'")) {
        ReplyCheck::HttpError(e) => assert_eq!(e, "HTTP 400 — input required: specific 'prompt'"),
        _ => panic!("expected HttpError"),
    }
    match check_reply("", 0, "m", None) {
        ReplyCheck::HttpError(e) => assert_eq!(e, "HTTP 0"),
        _ => panic!("expected HttpError"),
    }
}

#[test]
fn http_error_texts() {
    assert_eq!(http_error(503, None), "HTTP 503");
    assert_eq!(http_error(401, Some("bad key")), "HTTP 401 — bad key");
}

#[test]
fn empty_content() {
    assert_eq!(choice_content(Some("{}".into()), None), Ok("{}".to_string()));
    assert_eq!(choice_content(Some("x".into()), Some("length")), Ok("x".to_string()));
    assert_eq!(choice_content(None, Some("length")), Err(MAX_TOKENS_ERROR.to_string()));
    assert_eq!(MAX_TOKENS_ERROR, "model hit max_tokens mid-reasoning");
    assert_eq!(choice_content(None, Some("stop")), Err(NO_CONTENT_ERROR.to_string()));
    assert_eq!(choice_content(None, None), Err(NO_CONTENT_ERROR.to_string()));
}

#[test]
fn json_model_message() {
    let m = standard_user_message(
        "Star this repo",
        "Brave Browser",
        "GitHub",
        None,
        1440,
        900,
        "None yet.",
        "",
    );
    assert_eq!(
        m,
        "app:    Brave Browser\nwindow: GitHub\ngoal:   Star this repo\n\nScreenshot size: 1440 × 900 px  (origin TOP-LEFT, y DOWN)\nValid x range: 1–1439   Valid y range: 1–899\n\nSteps done so far:\nNone yet.\n\nIdentify the single next UI element and return its centre pixel."
    );
    let m = standard_user_message("g", "A", "W", Some("https://x"), 0, 1, "h", "\n\nHINT");
    assert_eq!(
        m,
        "app:    A\nwindow: W\nurl:    https://x\ngoal:   g\n\nScreenshot size: 0 × 1 px  (origin TOP-LEFT, y DOWN)\nValid x range: 1–-1   Valid y range: 1–0\n\nSteps done so far:\nh\n\nIdentify the single next UI element and return its centre pixel.\n\nHINT"
    );
}

#[test]
fn retry_wait_text() {
    assert_eq!(
        parse_retry_after("Please try again in 2.5s. Visit"),
        Some("2.5".to_string())
    );
    assert_eq!(parse_retry_after("try again in  7 s"), Some("7".to_string()));
    assert_eq!(parse_retry_after("slow down"), None);
    assert_eq!(parse_retry_after("try again in 3"), None);
}

#[test]
fn retry_plan_gives_three_attempts() {
    let mut p = RetryPlan::new();
    assert_eq!(p.attempt(), 0);
    assert!(!p.scroll_hint());
    assert!(p.record(AttemptOutcome::Failed) == RetryVerdict::Retry);
    assert_eq!(p.attempt(), 1);
    assert!(p.record(AttemptOutcome::Failed) == RetryVerdict::Retry);
    assert_eq!(p.attempt(), 2);
    assert!(p.record(AttemptOutcome::Failed) == RetryVerdict::GiveUp);
}

#[test]
fn retry_plan_out_of_bounds_falls_back() {
    let mut p = RetryPlan::new();
    assert!(p.record(AttemptOutcome::OutOfBounds) == RetryVerdict::Retry);
    assert!(p.scroll_hint());
    assert!(p.record(AttemptOutcome::Failed) == RetryVerdict::Retry);
    assert!(p.scroll_hint());
    assert!(p.record(AttemptOutcome::OutOfBounds) == RetryVerdict::Fallback);
    let f = fallback_step();
    assert_eq!(f.action, "Scroll");
    assert_eq!(f.description, "Scroll down to reveal more content");
    assert_eq!(f.reason, "The next element is not visible — scroll to bring it into view.");
}

#[test]
fn retry_plan_accepts_in_bounds() {
    let mut p = RetryPlan::new();
    p.record(AttemptOutcome::Failed);
    assert!(p.record(AttemptOutcome::InBounds) == RetryVerdict::Accept);
    assert_eq!(p.attempt(), 1);
}

#[test]
fn step_log_numbers_and_records() {
    let mut l = StepLog::new();
    assert_eq!(l.count(), 0);
    assert!(l.entries().is_empty());
    assert_eq!(l.record("Click", "the dock"), 1);
    assert_eq!(l.record("Type", "hello"), 2);
    assert_eq!(l.count(), 2);
    assert_eq!(
        l.entries(),
        &["Step 1 — Click: the dock".to_string(), "Step 2 — Type: hello".to_string()]
    );
    assert_eq!(format_history(l.entries()), "1. Step 1 — Click: the dock\n2. Step 2 — Type: hello");
}
