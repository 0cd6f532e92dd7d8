use pointer::uitars::uitars_step_kind;
use pointer::uitars::{extract_kwarg, find_line_starting, parse_uitars_response, point_arg, UitarsAction};

fn chars(s: &str) -> Vec<char> {
    s.chars().collect()
}

#[test]
fn kwarg_quoted_and_unquoted() {
    assert_eq!(extract_kwarg("content='hello, world')", "content"), Some("hello, world".into()));
    assert_eq!(extract_kwarg("content=\"a'b\")", "content"), Some("a'b".into()));
    assert_eq!(extract_kwarg("direction= up , x=1)", "direction"), Some("up".into()));
    assert_eq!(extract_kwarg("direction=left)", "direction"), Some("left".into()));
    assert_eq!(extract_kwarg("direction=right", "direction"), Some("right".into()));
}

#[test]
fn kwarg_missing_or_unclosed() {
    assert_eq!(extract_kwarg("point='x')", "content"), None);
    assert_eq!(extract_kwarg("content=", "content"), None);
    assert_eq!(extract_kwarg("content='open", "content"), None);
}

#[test]
fn point_pair() {
    assert_eq!(
        point_arg("click(point='<point>[[ 120 , 45]]</point>')"),
        Some(("120".into(), "45".into()))
    );
    assert_eq!(point_arg("click(point='[[1,2,3]]')"), Some(("1".into(), "2".into())));
    assert_eq!(point_arg("click(point='[[7]]')"), None);
    assert_eq!(point_arg("click(point='[[7,8')"), None);
    assert_eq!(point_arg("hover()"), None);
}

#[test]
fn first_matching_line() {
    let text = chars("a\n  Thought: x\nAction: y\nAction: z");
    assert_eq!(find_line_starting(&text, &chars("Action:")), Some(chars("Action: y")));
    assert_eq!(find_line_starting(&text, &chars("Thought:")), Some(chars("  Thought: x")));
    assert_eq!(find_line_starting(&text, &chars("Nope")), None);
}

#[test]
fn click_reply() {
    let r = parse_uitars_response(
        "Thought: The Mail icon is in the dock.\nAction: click(point='<point>[[500,980]]</point>')",
    )
    .unwrap();
    assert!(matches!(r.action, UitarsAction::Click));
    assert_eq!(r.thought, "The Mail icon is in the dock.");
    assert_eq!(r.text, "");
    assert_eq!(r.point, Some(("500".into(), "980".into())));
}

#[test]
fn left_double_right_click_and_hover() {
    let r = parse_uitars_response("Action: left_click(point='[[1,2]]')").unwrap();
    assert!(matches!(r.action, UitarsAction::Click));
    assert_eq!(r.thought, "");
    let r = parse_uitars_response("Action: double_click(point='[[3,4]]')").unwrap();
    assert!(matches!(r.action, UitarsAction::DoubleClick));
    assert_eq!(r.point, Some(("3".into(), "4".into())));
    let r = parse_uitars_response("Action: right_click(point='[[5,6]]')").unwrap();
    assert!(matches!(r.action, UitarsAction::RightClick));
    let r = parse_uitars_response("Action: hover(point='[[7,8]]')").unwrap();
    assert!(matches!(r.action, UitarsAction::Hover));
}

#[test]
fn type_reply() {
    let r = parse_uitars_response("Thought: t\nAction: type(content='hello there')").unwrap();
    assert!(matches!(r.action, UitarsAction::Type));
    assert_eq!(r.text, "hello there");
    assert_eq!(r.point, None);
    let r = parse_uitars_response("Action: type()").unwrap();
    assert_eq!(r.text, "");
}

#[test]
fn scroll_reply() {
    let r = parse_uitars_response("Action: scroll(point='[[10,20]]', direction='up')").unwrap();
    assert!(matches!(r.action, UitarsAction::Scroll));
    assert_eq!(r.text, "up");
    assert_eq!(r.point, Some(("10".into(), "20".into())));
    let r = parse_uitars_response("Action: scroll()").unwrap();
    assert_eq!(r.text, "down");
    assert_eq!(r.point, None);
}

#[test]
fn finished_reply() {
    let r = parse_uitars_response("Thought: done\nAction: finished(content='It costs $5')").unwrap();
    assert!(matches!(r.action, UitarsAction::Finished));
    assert_eq!(r.text, "It costs $5");
    assert_eq!(r.thought, "done");
    assert_eq!(r.point, None);
    let r = parse_uitars_response("Action: finished()").unwrap();
    assert_eq!(r.text, "finished()");
}

#[test]
fn missing_action_line() {
    let e = parse_uitars_response("Thought: hmm").err().unwrap();
    assert_eq!(e, "UI-TARS: no Action line in:\nThought: hmm");
}

#[test]
fn unknown_action() {
    let e = parse_uitars_response("Action:  drag(start='[[1,2]]')  ").err().unwrap();
    assert_eq!(e, "UI-TARS: unrecognised action: drag(start='[[1,2]]')");
}

#[test]
fn step_kinds() {
    let k = uitars_step_kind(&parse_uitars_response("Action: click(point='[[1,2]]')").unwrap());
    assert_eq!(k.name, "Click");
    assert!(!k.is_final);
    assert_eq!(k.description, None);
    let k = uitars_step_kind(&parse_uitars_response("Action: double_click(point='[[1,2]]')").unwrap());
    assert_eq!(k.name, "Double-click");
    let k = uitars_step_kind(&parse_uitars_response("Action: right_click(point='[[1,2]]')").unwrap());
    assert_eq!(k.name, "Right-click");
    let k = uitars_step_kind(&parse_uitars_response("Action: hover(point='[[1,2]]')").unwrap());
    assert_eq!((k.name.as_str(), k.description), ("Hover", None));
    let k = uitars_step_kind(&parse_uitars_response("Action: type(content='hi')").unwrap());
    assert_eq!((k.name.as_str(), k.description), ("Type", Some("hi".to_string())));
    let k = uitars_step_kind(&parse_uitars_response("Action: scroll(direction='up')").unwrap());
    assert_eq!((k.name.as_str(), k.description), ("Scroll", Some("Scroll up".to_string())));
    let k = uitars_step_kind(&parse_uitars_response("Action: finished(content='done')").unwrap());
    assert_eq!(k.name, "Finished");
    assert!(k.is_final);
    assert_eq!(k.description, Some("done".to_string()));
}
