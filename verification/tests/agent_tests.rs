use pointer::agent::{
    browser_url_from_output, browser_url_script, check_connection, check_vision,
    is_reasoning_model, is_uitars_model, lowered_names_reasoning, lowered_names_uitars,
    parse_sips_dim, screenshot_payload, split_status, ARC_SCRIPT, BRAVE_SCRIPT, CHROME_SCRIPT,
    SAFARI_SCRIPT,
};

#[test]
fn uitars_names() {
    assert!(is_uitars_model("bytedance/UI-TARS-1.5-7B"));
    assert!(is_uitars_model("local-UiTars"));
    assert!(!is_uitars_model("meta-llama/llama-4-scout-17b-16e-instruct"));
    assert!(lowered_names_uitars("ui-tars-72b"));
    assert!(!lowered_names_uitars("UI-TARS"));
}

#[test]
fn sips_dimensions() {
    let out = "/tmp/pointer_shot.png\n  pixelWidth: 2880\n  pixelHeight: 1800\n";
    assert_eq!(parse_sips_dim(out, "pixelWidth"), Some(2880));
    assert_eq!(parse_sips_dim(out, "pixelHeight"), Some(1800));
    assert_eq!(parse_sips_dim(out, "dpiWidth"), None);
    assert_eq!(parse_sips_dim("  pixelWidth: abc", "pixelWidth"), None);
    assert_eq!(parse_sips_dim("  pixelWidth 12", "pixelWidth"), None);
    assert_eq!(parse_sips_dim("pixelWidth: 4294967296", "pixelWidth"), None);
    assert_eq!(parse_sips_dim("pixelWidth: 4294967295", "pixelWidth"), Some(u32::MAX));
}

#[test]
fn payload_base64_and_size() {
    let info = "x.png\n  pixelWidth: 3024\n  pixelHeight: 1964\n";
    assert_eq!(screenshot_payload(b"Man", info, 1512, 982), ("TWFu".to_string(), 3024, 1964));
    assert_eq!(screenshot_payload(b"M", "", 1512, 982), ("TQ==".to_string(), 1512, 982));
    assert_eq!(screenshot_payload(b"Ma", "", 10, 20), ("TWE=".to_string(), 10, 20));
    assert_eq!(screenshot_payload(b"", "", 1, 2), (String::new(), 1, 2));
    assert_eq!(
        screenshot_payload(&[0xfb, 0xff, 0xbf], "", 1, 1).0,
        "+/+/".to_string()
    );
    assert_eq!(
        screenshot_payload(b"hello world", "", 1, 1).0,
        "aGVsbG8gd29ybGQ=".to_string()
    );
}

#[test]
fn browser_scripts() {
    assert_eq!(browser_url_script("Brave Browser"), Some(BRAVE_SCRIPT));
    assert_eq!(browser_url_script("Google Chrome"), Some(CHROME_SCRIPT));
    assert_eq!(browser_url_script("Chromium"), Some(CHROME_SCRIPT));
    assert_eq!(browser_url_script("Chrome"), Some(CHROME_SCRIPT));
    assert_eq!(browser_url_script("Safari"), Some(SAFARI_SCRIPT));
    assert_eq!(browser_url_script("Safari Technology Preview"), Some(SAFARI_SCRIPT));
    assert_eq!(browser_url_script("Arc"), Some(ARC_SCRIPT));
    assert_eq!(browser_url_script("Finder"), None);
    assert_eq!(
        SAFARI_SCRIPT,
        "tell application \"Safari\" to return URL of current tab of front window"
    );
}

#[test]
fn browser_output() {
    assert_eq!(browser_url_from_output(" https://example.com \n"), Some("https://example.com".into()));
    assert_eq!(browser_url_from_output("\n"), None);
    assert_eq!(browser_url_from_output("Error: no window"), None);
}

#[test]
fn connection_ok() {
    assert_eq!(check_connection("{\"id\":1}\n200", "", None), Ok(()));
    assert_eq!(check_connection("{}\n201", "", None), Ok(()));
}

#[test]
fn connection_bad_key() {
    assert_eq!(check_connection("{}\n401", "", None), Err("✗ Invalid API key".into()));
    assert_eq!(check_connection("{}\n403", "", None), Err("✗ Invalid API key".into()));
}

#[test]
fn connection_unknown_model() {
    assert_eq!(
        check_connection("{\"error\":1}\n404", "", None),
        Err("✗ Model not found — update model name".into())
    );
}

#[test]
fn connection_http_error() {
    assert_eq!(check_connection("oops\n500", "", None), Err("✗ HTTP 500".into()));
    assert_eq!(check_connection("429", "", None), Err("✗ HTTP 429".into()));
}

#[test]
fn connection_refused() {
    assert_eq!(check_connection("\n000", "  ", None), Err("✗ Could not connect to server".into()));
    assert_eq!(
        check_connection("", "curl: (7) Failed to connect\n", None),
        Err("✗ curl: (7) Failed to connect".into())
    );
    assert_eq!(check_connection("x\nabc", "", None), Err("✗ Could not connect to server".into()));
}

#[test]
fn connection_detail_cut_at_eighty_bytes() {
    let long = "e".repeat(100);
    let r = check_connection("", &long, None);
    assert_eq!(r, Err(format!("✗ {}", "e".repeat(80))));
}

#[test]
fn vision_probe() {
    assert_eq!(check_vision("{\"choices\":[]}", "m"), Ok(()));
    assert_eq!(
        check_vision("content must be a string", "llama-3"),
        Err("✗ 'llama-3' is text-only — use a vision model e.g. meta-llama/llama-4-scout-17b-16e-instruct".into())
    );
    assert!(check_vision("model does not support images", "x").is_err());
}

#[test]
fn connection_http_error_with_message() {
    assert_eq!(
        check_connection("{\"error\":{}}\n400", "", Some("model does not support image input")),
        Err("✗ HTTP 400 — model does not support image input".into())
    );
    // The message is only used for other statuses.
    assert_eq!(check_connection("{}\n401", "", Some("x")), Err("✗ Invalid API key".into()));
    assert_eq!(check_connection("{}\n200", "", Some("x")), Ok(()));
}

#[test]
fn status_split() {
    assert_eq!(split_status("{\"a\":1}\n200"), ("{\"a\":1}".to_string(), 200));
    assert_eq!(split_status("line1\nline2\n 404 "), ("line1\nline2".to_string(), 404));
    assert_eq!(split_status(" 500 "), (String::new(), 500));
    assert_eq!(split_status("body\nabc"), ("body".to_string(), 0));
    assert_eq!(split_status("body\n70000"), ("body".to_string(), 0));
    assert_eq!(split_status(""), (String::new(), 0));
}

#[test]
fn reasoning_names() {
    assert!(is_reasoning_model("qwen/qwen3.5-35b-a3b"));
    assert!(is_reasoning_model("DeepSeek-R1-Distill"));
    assert!(is_reasoning_model("openai/o3-mini"));
    assert!(is_reasoning_model("QwQ-32B"));
    assert!(!is_reasoning_model("meta-llama/llama-4-scout-17b-16e-instruct"));
    assert!(!is_reasoning_model("google/gemini-2.0-flash-001"));
    assert!(!is_reasoning_model("mistralai/pixtral-large"));
    assert!(lowered_names_reasoning("o4-mini"));
    assert!(!lowered_names_reasoning("QWQ"));
}

#[test]
fn connection_detail_cut_at_char_boundary() {
    let err = format!("{}éé", "a".repeat(79));
    assert_eq!(check_connection("", &err, None), Err(format!("✗ {}", "a".repeat(79))));
    let err = "é".repeat(50);
    assert_eq!(check_connection("", &err, None), Err(format!("✗ {}", "é".repeat(40))));
    let err = format!("{}⚠x", "a".repeat(77));
    assert_eq!(check_connection("", &err, None), Err(format!("✗ {}⚠", "a".repeat(77))));
    assert_eq!(check_connection("", "  😀 curl  ", None), Err("✗ 😀 curl".into()));
}
