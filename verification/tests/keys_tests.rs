use pointer::keys::strip_key_white_space;
use pointer::config::{key_preview, provider_name, PointerConfig};
use pointer::keys::sanitize_key;

#[test]
fn white_space_removed() {
    assert_eq!(sanitize_key("  key-abc\n"), "key-abc");
    assert_eq!(sanitize_key("key-12 34\t56"), "key-123456");
    assert_eq!(sanitize_key(" \n "), "");
    assert_eq!(sanitize_key(""), "");
}

#[test]
fn pasted_twice_kept_once() {
    assert_eq!(sanitize_key("key-abckey-abc"), "key-abc");
    assert_eq!(sanitize_key("key-9x\nkey-9x\nkey-9x\n"), "key-9x");
    assert_eq!(sanitize_key("EMPTY"), "EMPTY");
    // Not whole copies: left as it is.
    assert_eq!(sanitize_key("abcab"), "abcab");
    assert_eq!(sanitize_key("aaaa"), "a");
}

#[test]
fn config_keys_cleaned() {
    let mut c = PointerConfig {
        provider: 1,
        groq_api_key: " key-1 ".into(),
        groq_model: "m g".into(),
        groq_url: "u".into(),
        openrouter_api_key: "key-x\nkey-x".into(),
        openrouter_model: "or m".into(),
        openrouter_url: "https://or".into(),
        local_base_url: "http://localhost:8000/v1".into(),
        local_api_key: "EMPTY\n".into(),
        local_model: "UI TARS".into(),
    };
    c.clean_keys();
    assert_eq!(c.groq_api_key, "key-1");
    assert_eq!(c.openrouter_api_key, "key-x");
    assert_eq!(c.local_api_key, "EMPTY");
    assert_eq!(c.groq_model, "m g");
    assert_eq!(c.local_model, "UI TARS");
    assert_eq!(c.provider, 1);
    assert_eq!(c.effective_api_key(), "key-x");
}

#[test]
fn provider_names() {
    assert_eq!(provider_name(0), "Groq");
    assert_eq!(provider_name(1), "OpenRouter");
    assert_eq!(provider_name(2), "Local / Self-hosted");
    assert_eq!(provider_name(9), "Groq");
}

#[test]
fn key_previews() {
    assert_eq!(key_preview("abcdefghijklmnopqrstuvwxyz"), "abcdefghijklmnopq...");
    assert_eq!(key_preview("key-1"), "key-1...");
    assert_eq!(key_preview(""), "...");
}

#[test]
fn white_space_stripped_for_sending() {
    assert_eq!(strip_key_white_space(" key-1\n"), "key-1");
    // Only white space goes: a key pasted twice is sent as typed.
    assert_eq!(strip_key_white_space("key-x\nkey-x"), "key-xkey-x");
    assert_eq!(strip_key_white_space("\t \n"), "");
}
