use pointer::config::PointerConfig;
use pointer::events::{KeyOutcome, VK_DELETE, VK_ESCAPE, VK_RETURN};
use pointer::tour::{
    heading_for, hint_for, step_card, NextStep, Phase, Tour, COMPLETE_COUNTDOWN_START, DONE_TICKS,
};

fn config_with_key(key: &str) -> PointerConfig {
    PointerConfig {
        provider: 0,
        groq_api_key: key.into(),
        groq_model: "m".into(),
        groq_url: "https://u".into(),
        openrouter_api_key: String::new(),
        openrouter_model: "m2".into(),
        openrouter_url: "https://u2".into(),
        local_base_url: "http://localhost:8000/v1".into(),
        local_api_key: "EMPTY".into(),
        local_model: "UI-TARS".into(),
    }
}

fn at_step(action: &str, description: &str, is_final: bool) -> Tour {
    let mut t = Tour::new();
    t.toggle();
    t.to_input();
    t.process_key(0, "open mail");
    assert_eq!(t.to_loading(&config_with_key("k")), Some("open mail".to_string()));
    t.show_step(action, description, is_final);
    t
}

#[test]
fn starts_hidden() {
    let t = Tour::new();
    assert!(t.phase() == Phase::Hidden);
    assert_eq!(t.phase_number(), 0);
    assert_eq!(t.input(), "");
    assert_eq!(t.goal(), "");
    assert!(!t.click_armed());
}

#[test]
fn toggle_round_trip() {
    let mut t = Tour::new();
    assert!(t.toggle());
    assert!(t.phase() == Phase::Dot);
    assert_eq!(t.phase_number(), 1);
    assert!(!t.toggle());
    assert!(t.phase() == Phase::Hidden);
}

#[test]
fn hiding_forgets_prompt_and_answer() {
    let mut t = at_step("Click", "the answer", true);
    assert_eq!(t.final_answer(), "the answer");
    t.to_input();
    t.process_key(0, "abc");
    t.to_hidden();
    assert!(t.phase() == Phase::Hidden);
    assert_eq!(t.input(), "");
    assert_eq!(t.final_answer(), "");
}

#[test]
fn submit_with_key_starts_loading() {
    let mut t = Tour::new();
    t.toggle();
    t.to_input();
    assert_eq!(t.phase_number(), 2);
    assert!(matches!(t.process_key(0, "hello"), KeyOutcome::Redisplay));
    assert!(matches!(t.process_key(VK_RETURN, ""), KeyOutcome::Submit));
    let q = t.to_loading(&config_with_key("key-x"));
    assert_eq!(q, Some("hello".to_string()));
    assert!(t.phase() == Phase::Loading);
    assert_eq!(t.phase_number(), 3);
    assert_eq!(t.goal(), "hello");
    assert_eq!(t.input(), "");
    assert_eq!(t.load_tick(), 0);
}

#[test]
fn submit_without_key_hides() {
    let mut t = Tour::new();
    t.toggle();
    t.to_input();
    t.process_key(0, "hello");
    assert_eq!(t.to_loading(&config_with_key("")), None);
    assert!(t.phase() == Phase::Hidden);
    assert_eq!(t.input(), "");
}

#[test]
fn prompt_keys_edit_input() {
    let mut t = Tour::new();
    t.to_input();
    t.process_key(0, "ab");
    assert!(matches!(t.process_key(VK_DELETE, ""), KeyOutcome::Redisplay));
    assert_eq!(t.input(), "a");
    assert!(matches!(t.process_key(VK_ESCAPE, ""), KeyOutcome::Dismiss));
    assert_eq!(t.input(), "a");
}

#[test]
fn fire_next_step_without_agent_hides() {
    let mut t = Tour::new();
    t.toggle();
    assert!(!t.fire_next_step(false));
    assert!(t.phase() == Phase::Hidden);
    let mut u = Tour::new();
    u.toggle();
    assert!(u.fire_next_step(true));
    assert!(u.phase() == Phase::Dot);
}

#[test]
fn click_steps_arm_the_target() {
    for (action, armed) in [
        ("Click", true),
        ("Double-click", true),
        ("Right-click", true),
        ("Type", false),
        ("Scroll", false),
        ("Hover", false),
        ("click", false),
    ] {
        let t = at_step(action, "d", false);
        assert_eq!(t.click_armed(), armed, "{action}");
        assert!(t.phase() == Phase::Step);
        assert_eq!(t.phase_number(), 4);
    }
}

#[test]
fn next_step_continues_loading() {
    let mut t = at_step("Click", "press", false);
    assert!(matches!(t.on_next_step_pressed(), NextStep::Continue));
    assert!(t.phase() == Phase::Loading);
    assert_eq!(t.load_tick(), 0);
}

#[test]
fn final_step_completes_after_countdown() {
    let mut t = at_step("Click", "All done: it is 42", true);
    assert!(matches!(t.on_next_step_pressed(), NextStep::Finish));
    assert!(matches!(t.on_next_step_pressed(), NextStep::Ignore));
    // The countdown runs from COMPLETE_COUNTDOWN_START down to 0, and the
    // pulse that finds it at 0 shows the card.
    for _ in 0..COMPLETE_COUNTDOWN_START {
        let e = t.pulse();
        assert!(!e.show_completion);
        assert!(t.phase() == Phase::Step);
    }
    let e = t.pulse();
    assert!(e.show_completion);
    assert!(t.phase() == Phase::Done);
    assert_eq!(t.phase_number(), 5);
}

#[test]
fn completion_card_disappears_after_done_ticks() {
    let mut t = at_step("Click", "answer", true);
    let card = t.show_completion();
    assert_eq!(card.body, "answer");
    assert_eq!(card.reason, "Goal: open mail");
    for _ in 0..=DONE_TICKS {
        assert!(t.phase() == Phase::Done);
        let e = t.pulse();
        if t.phase() == Phase::Hidden {
            assert!(e.hide);
        } else {
            assert!(!e.hide);
        }
    }
    assert!(t.phase() == Phase::Hidden);
}

#[test]
fn done_button_closes_card() {
    let mut t = at_step("Click", "answer", true);
    t.show_completion();
    assert!(matches!(t.on_next_step_pressed(), NextStep::Close));
    assert!(t.phase() == Phase::Hidden);
}

#[test]
fn completion_texts() {
    let mut t = Tour::new();
    let card = t.show_completion();
    assert_eq!(card.body, "You completed all the steps — great job!");
    assert_eq!(card.reason, "");

    let mut u = at_step("Click", "next", false);
    let card = u.show_completion();
    assert_eq!(card.body, "You completed: open mail");
    assert_eq!(card.reason, "");
}

#[test]
fn cursor_blinks_every_ten_pulses() {
    let mut t = Tour::new();
    t.to_input();
    assert_eq!(t.display_text("ab"), "ab│");
    // Pulse 0 keeps the cursor on, pulse 10 turns it off, pulse 20 on again.
    let e = t.pulse();
    assert!(e.redisplay);
    assert_eq!(t.display_text("ab"), "ab│");
    for _ in 1..10 {
        assert!(!t.pulse().redisplay);
    }
    assert!(t.pulse().redisplay);
    assert_eq!(t.display_text("ab"), "ab");
    for _ in 11..20 {
        t.pulse();
    }
    t.pulse();
    assert_eq!(t.display_text("ab"), "ab│");
}

#[test]
fn display_without_cursor_outside_prompt() {
    let t = Tour::new();
    assert_eq!(t.display_text("xy"), "xy");
}

#[test]
fn dot_pulse_reports_blink_tick() {
    let mut t = Tour::new();
    t.toggle();
    let e = t.pulse();
    assert!(e.redraw_dot);
    assert_eq!(e.blink_tick, Some(0));
    assert_eq!(t.pulse().blink_tick, Some(1));
    assert_eq!(e.animate, None);
}

#[test]
fn step_pulses_animate_then_stop() {
    let mut t = at_step("Click", "d", false);
    let mut animated = 0;
    for i in 0..30u32 {
        let e = t.pulse();
        if let Some(k) = e.animate {
            assert_eq!(k, i);
            animated += 1;
        }
    }
    assert_eq!(animated, 17);
}

#[test]
fn loading_pulses_advance_spinner() {
    let mut t = Tour::new();
    t.toggle();
    t.to_input();
    t.process_key(0, "q");
    t.to_loading(&config_with_key("k"));
    t.pulse();
    t.pulse();
    assert_eq!(t.load_tick(), 2);
}

#[test]
fn step_card_texts() {
    let c = step_card(3, "Click", false);
    assert_eq!(c.heading, "Step 3  ·  CLICK");
    assert_eq!(c.button, "I did it  →");
    assert_eq!(c.hint, "👆  Click here");
    let f = step_card(12, "Double-click", true);
    assert_eq!(f.heading, "Step 12  ·  DOUBLE-CLICK");
    assert_eq!(f.button, "Done  ✓");
    assert_eq!(f.hint, "👆  Double-click here");
}

#[test]
fn hints_per_action() {
    assert_eq!(hint_for("Right-click"), "🖱  Right-click here");
    assert_eq!(hint_for("Type"), "⌨  Type here");
    assert_eq!(hint_for("Scroll"), "↕  Scroll here");
    assert_eq!(hint_for("Hover"), "👀  Hover here");
    assert_eq!(hint_for("Wait"), "↗  Do this");
    assert_eq!(heading_for(0, "TYPE"), "Step 0  ·  TYPE");
}

#[test]
fn prompt_view_keys_with_command() {
    let mut t = Tour::new();
    t.to_input();
    assert!(matches!(t.process_view_key(0, false, "ab"), KeyOutcome::Redisplay));
    assert_eq!(t.input(), "ab");
    assert!(matches!(t.process_view_key(9, true, "v"), KeyOutcome::Ignore));
    assert_eq!(t.input(), "ab");
    assert!(matches!(t.process_view_key(VK_DELETE, true, ""), KeyOutcome::Redisplay));
    assert_eq!(t.input(), "a");
    assert!(matches!(t.process_view_key(VK_RETURN, true, ""), KeyOutcome::Submit));
    assert!(matches!(t.process_view_key(VK_ESCAPE, false, ""), KeyOutcome::Dismiss));
    assert_eq!(t.input(), "a");
}
