use pointer::config::{
    default_or_model, default_or_url, local_chat_url, ConfigEnv, MsPtrs, PointerConfig,
    GROQ_MODEL_DEFAULT, GROQ_URL_DEFAULT, OPENROUTER_MODEL_DEFAULT, OPENROUTER_URL_DEFAULT,
};

fn sample(provider: u8) -> PointerConfig {
    PointerConfig {
        provider,
        groq_api_key: "key-groq".into(),
        groq_model: "groq-model".into(),
        groq_url: "https://groq/x".into(),
        openrouter_api_key: "key-router".into(),
        openrouter_model: "or-model".into(),
        openrouter_url: "https://or/x".into(),
        local_base_url: "http://localhost:8000/v1/".into(),
        local_api_key: "EMPTY".into(),
        local_model: "UI-TARS".into(),
    }
}

#[test]
fn provider_selects_settings() {
    let g = sample(0);
    assert_eq!(g.effective_api_key(), "key-groq");
    assert_eq!(g.effective_model(), "groq-model");
    assert_eq!(g.effective_api_url(), "https://groq/x");
    let o = sample(1);
    assert_eq!(o.effective_api_key(), "key-router");
    assert_eq!(o.effective_model(), "or-model");
    assert_eq!(o.effective_api_url(), "https://or/x");
    let l = sample(2);
    assert_eq!(l.effective_api_key(), "EMPTY");
    assert_eq!(l.effective_model(), "UI-TARS");
    assert_eq!(l.effective_api_url(), "http://localhost:8000/v1/chat/completions");
}

#[test]
fn unknown_provider_falls_back_to_groq() {
    let c = sample(7);
    assert_eq!(c.effective_api_key(), "key-groq");
    assert_eq!(c.effective_api_url(), "https://groq/x");
}

#[test]
fn trailing_slashes_do_not_matter() {
    assert_eq!(local_chat_url("http://h:1234/v1"), "http://h:1234/v1/chat/completions");
    assert_eq!(local_chat_url("http://h:1234/v1///"), "http://h:1234/v1/chat/completions");
    assert_eq!(local_chat_url(""), "/chat/completions");
}

#[test]
fn fresh_config_uses_environment_then_defaults() {
    let c = PointerConfig::from_env(ConfigEnv {
        groq_api_key: None,
        groq_model: None,
        groq_url: None,
        openrouter_api_key: None,
        openrouter_model: None,
    });
    assert_eq!(c.provider, 0);
    assert_eq!(c.groq_api_key, "");
    assert_eq!(c.groq_model, GROQ_MODEL_DEFAULT);
    assert_eq!(c.groq_url, GROQ_URL_DEFAULT);
    assert_eq!(c.openrouter_model, OPENROUTER_MODEL_DEFAULT);
    assert_eq!(c.openrouter_url, OPENROUTER_URL_DEFAULT);
    assert_eq!(c.local_base_url, "");
    assert_eq!(c.local_api_key, "EMPTY");
    assert_eq!(c.local_model, "");
    let e = PointerConfig::from_env(ConfigEnv {
        groq_api_key: Some("key-env".into()),
        groq_model: Some("m".into()),
        groq_url: Some("u".into()),
        openrouter_api_key: Some("k".into()),
        openrouter_model: Some("om".into()),
    });
    assert_eq!(e.groq_api_key, "key-env");
    assert_eq!(e.groq_model, "m");
    assert_eq!(e.groq_url, "u");
    assert_eq!(e.openrouter_api_key, "k");
    assert_eq!(e.openrouter_model, "om");
    assert_eq!(e.openrouter_url, "https://openrouter.ai/api/v1/chat/completions");
}

#[test]
fn openrouter_defaults() {
    assert_eq!(default_or_model(), "meta-llama/llama-4-maverick:free");
    assert_eq!(default_or_url(), "https://openrouter.ai/api/v1/chat/completions");
}

#[test]
fn widget_addresses_are_plain_values() {
    let p = MsPtrs {
        provider_popup: 1, groq_api_fld: 2, groq_mdl_fld: 3, groq_url_fld: 4, or_api_fld: 5,
        or_mdl_fld: 6, or_url_fld: 7, loc_url_fld: 8, loc_key_fld: 9, loc_mdl_fld: 10,
        groq_box: 11, or_box: 12, loc_box: 13, status_lbl: 14,
    };
    assert_eq!(p.status_lbl, 14);
}
