use pointer::memory::{Memory, MEM_WINDOW};

#[test]
fn empty_memory_has_no_history() {
    let m = Memory::new();
    assert_eq!(m.total_steps(), 0);
    assert_eq!(m.format_for_prompt(), "None yet.");
    assert_eq!(m.stuck_action(), None);
}

#[test]
fn one_step_is_shown_verbatim() {
    let mut m = Memory::new();
    m.push(1, "Click", "open the File menu");
    assert_eq!(m.total_steps(), 1);
    assert_eq!(m.format_for_prompt(), "Recent steps (full detail):\n  1. Click: open the File menu\n");
}

#[test]
fn old_steps_are_compressed_once_the_window_fills() {
    let mut m = Memory::new();
    for i in 1..=8usize {
        m.push(i, &format!("A{i}"), &format!("d{i}"));
    }
    assert_eq!(m.total_steps(), 8);
    let mut expected = String::from(
        "Earlier steps (compressed):\n  Step 1: A1 — d1\n  Step 2: A2 — d2\n\nRecent steps (full detail):\n",
    );
    for i in 3..=8 {
        expected.push_str(&format!("  {i}. A{i}: d{i}\n"));
    }
    assert_eq!(m.format_for_prompt(), expected);
    assert_eq!(MEM_WINDOW, 6);
}

#[test]
fn window_holds_exactly_six_steps() {
    let mut m = Memory::new();
    for i in 1..=6usize {
        m.push(i, "Scroll", "down");
    }
    let text = m.format_for_prompt();
    assert!(!text.contains("Earlier steps"));
    m.push(7, "Scroll", "down");
    assert!(m.format_for_prompt().starts_with("Earlier steps (compressed):\n  Step 1: Scroll — down\n\n"));
}

#[test]
fn three_repeats_are_stuck() {
    let mut m = Memory::new();
    m.push(1, "Type", "name");
    m.push(2, "Click", "Save");
    m.push(3, "Click", "Save again");
    assert_eq!(m.stuck_action(), None);
    m.push(4, "Click", "Save once more");
    assert_eq!(m.stuck_action(), Some("Click"));
    m.push(5, "Scroll", "down");
    assert_eq!(m.stuck_action(), None);
}

#[test]
fn two_steps_are_never_stuck() {
    let mut m = Memory::new();
    m.push(1, "Click", "a");
    m.push(2, "Click", "a");
    assert_eq!(m.stuck_action(), None);
}

#[test]
fn registered_mistakes_are_listed_once() {
    let mut m = Memory::new();
    m.register_stuck();
    assert_eq!(m.format_for_prompt(), "None yet.");
    m.push(1, "Click", "Save");
    m.register_stuck();
    m.register_stuck();
    assert_eq!(
        m.format_for_prompt(),
        "Recent steps (full detail):\n  1. Click: Save\n\n⚠ DO NOT REPEAT — tried with no progress:\n  • Click\n"
    );
    m.push(2, "Hover", "menu");
    m.register_stuck();
    assert!(m.format_for_prompt().ends_with("  • Click\n  • Hover\n"));
}
