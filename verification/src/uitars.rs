//! Reading UI-TARS replies: a `Thought:` line and an `Action:` line such as
//! `click(point='<point>[[x,y]]</point>')`, with coordinates on a 0–999 grid.

use vstd::prelude::*;
use crate::text::{contains, lemma_find_at, occurs_at, find, find_chars, find_either,
    find_either_chars, lemma_find_some, lines, lines_chars, slice_of, split_nth, split_nth_chars,
    starts_with, starts_with_chars, strip_prefix_chars, str_eq, to_chars, from_chars, trim,
    trim_chars, trim_start, trim_start_chars, trim_start_matches, trim_start_matches_chars,
    push_str, push_chars};

verus! {

/// The value of `key=` in `s`: the text between matching quotes when the
/// value is quoted with `'` or `"`, otherwise the trimmed text up to the next
/// `,` or `)`. `None` when `key=` does not occur, nothing follows it, or a
/// quote is not closed.
pub open spec fn kwarg(s: Seq<char>, key: Seq<char>) -> Option<Seq<char>> {
    let needle = key.push('=');
    match find(s, needle) {
        None => None,
        Some(pos) => {
            let rest = s.skip(pos + needle.len());
            if rest.len() == 0 {
                None
            } else if rest[0] == '\'' || rest[0] == '"' {
                let inner = rest.drop_first();
                match find(inner, seq![rest[0]]) {
                    Some(end) => Some(inner.take(end)),
                    None => None,
                }
            } else {
                let end = match find_either(rest, ',', ')') {
                    Some(e) => e,
                    None => rest.len() as int,
                };
                Some(trim(rest.take(end)))
            }
        }
    }
}

/// Computes `kwarg` on characters.
fn kwarg_chars(s: &[char], key: &[char]) -> (r: Option<Vec<char>>)
    ensures
        match r {
            Some(v) => kwarg(s@, key@) == Some(v@),
            None => kwarg(s@, key@) is None,
        },
{
    let mut needle = slice_of(key, 0, key.len());
    needle.push('=');
    assert(needle@ =~= key@.push('='));
    let f = find_chars(s, needle.as_slice());
    proof {
        lemma_find_some(s@, needle@);
    }
    let pos = match f {
        Some(p) => p,
        None => return None,
    };
    assert(occurs_at(s@, needle@, pos as int));
    assert(pos + needle.len() <= s.len());
    let rest = slice_of(s, pos + needle.len(), s.len());
    assert(rest@ =~= s@.skip(pos + needle@.len()));
    if rest.len() == 0 {
        return None;
    }
    let q = rest[0];
    if q == '\'' || q == '"' {
        let inner = slice_of(rest.as_slice(), 1, rest.len());
        assert(inner@ =~= rest@.drop_first());
        let qs = [q];
        assert(qs@ =~= seq![rest@[0]]);
        let e = find_chars(inner.as_slice(), qs.as_slice());
        proof {
            lemma_find_some(inner@, qs@);
        }
        match e {
            Some(end) => {
                let v = slice_of(inner.as_slice(), 0, end);
                assert(v@ =~= inner@.take(end as int));
                Some(v)
            },
            None => None,
        }
    } else {
        let e = find_either_chars(rest.as_slice(), ',', ')');
        let end = match e {
            Some(x) => x,
            None => rest.len(),
        };
        proof {
            if e is Some {
                assert(0 <= end < rest@.len());
            }
        }
        let head = slice_of(rest.as_slice(), 0, end);
        assert(head@ =~= rest@.take(end as int));
        Some(trim_chars(head.as_slice()))
    }
}

/// A value written as `key='value'` (with no quote inside) is read back.
pub proof fn law_quoted_kwarg_round_trip(key: Seq<char>, v: Seq<char>, tail: Seq<char>)
    requires
        !contains(v, seq!['\'']),
    ensures
        kwarg(key.push('=') + seq!['\''] + v + seq!['\''] + tail, key) == Some(v),
{
    let needle = key.push('=');
    let s = needle + seq!['\''] + v + seq!['\''] + tail;
    assert(s.subrange(0, needle.len() as int) =~= needle);
    lemma_find_at(s, needle, 0);
    let rest = s.skip(needle.len() as int);
    assert(rest =~= seq!['\''] + v + seq!['\''] + tail);
    let inner = rest.drop_first();
    assert(inner =~= v + seq!['\''] + tail);
    assert(inner.subrange(v.len() as int, v.len() + 1 as int) =~= seq!['\'']);
    assert forall|j: int| 0 <= j < v.len() implies inner[j] != '\'' by {
        assert(inner[j] == v[j]);
        if v[j] == '\'' {
            assert(v.subrange(j, j + 1) =~= seq!['\'']);
            assert(occurs_at(v, seq!['\''], j));
        }
    }
    lemma_find_at(inner, seq!['\''], v.len() as int);
    assert(inner.take(v.len() as int) =~= v);
}

/// Finds `key='…'`, `key="…"` or an unquoted `key=…` in `s`.
pub fn extract_kwarg(s: &str, key: &str) -> (r: Option<String>)
    ensures
        match r {
            Some(v) => kwarg(s@, key@) == Some(v@),
            None => kwarg(s@, key@) is None,
        },
{
    let cs = to_chars(s);
    let ks = to_chars(key);
    match kwarg_chars(cs.as_slice(), ks.as_slice()) {
        Some(v) => Some(from_chars(v.as_slice())),
        None => None,
    }
}


/// The two number texts of `[[x,y]]` in `s` (each trimmed), if present:
/// the text between the first `[[` and the next `]]`, split at commas.
pub open spec fn point_text(s: Seq<char>) -> Option<(Seq<char>, Seq<char>)> {
    match find(s, seq!['[', '[']) {
        None => None,
        Some(i) => {
            let start = i + 2;
            match find(s.skip(start), seq![']', ']']) {
                None => None,
                Some(end) => {
                    let inner = s.subrange(start, start + end);
                    match split_nth(inner, seq![','], 1) {
                        None => None,
                        Some(y) => Some(
                            (trim(split_nth(inner, seq![','], 0).unwrap()), trim(y)),
                        ),
                    }
                },
            }
        },
    }
}

/// The first piece of a split always exists.
proof fn lemma_split_first(s: Seq<char>, p: Seq<char>)
    ensures
        split_nth(s, p, 0) is Some,
{
}

/// Computes `point_text`.
pub fn point_arg(s: &str) -> (r: Option<(String, String)>)
    ensures
        match r {
            Some((x, y)) => point_text(s@) == Some((x@, y@)),
            None => point_text(s@) is None,
        },
{
    let cs = to_chars(s);
    let open = ['[', '['];
    let close = [']', ']'];
    let comma = [','];
    assert(open@ =~= seq!['[', '[']);
    assert(close@ =~= seq![']', ']']);
    assert(comma@ =~= seq![',']);
    let f = find_chars(cs.as_slice(), open.as_slice());
    proof {
        lemma_find_some(cs@, open@);
    }
    let i = match f {
        Some(i) => i,
        None => return None,
    };
    assert(occurs_at(cs@, open@, i as int));
    assert(i + 2 <= cs.len());
    let start = i + 2;
    let tail = slice_of(cs.as_slice(), start, cs.len());
    assert(tail@ =~= cs@.skip(start as int));
    let g = find_chars(tail.as_slice(), close.as_slice());
    proof {
        lemma_find_some(tail@, close@);
    }
    let end = match g {
        Some(e) => e,
        None => return None,
    };
    assert(occurs_at(tail@, close@, end as int));
    let inner = slice_of(cs.as_slice(), start, start + end);
    let x = split_nth_chars(inner.as_slice(), comma.as_slice(), 0);
    let y = split_nth_chars(inner.as_slice(), comma.as_slice(), 1);
    proof {
        lemma_split_first(inner@, comma@);
    }
    match (x, y) {
        (Some(x), Some(y)) => {
            let tx = trim_chars(x.as_slice());
            let ty = trim_chars(y.as_slice());
            Some((from_chars(tx.as_slice()), from_chars(ty.as_slice())))
        },
        _ => None,
    }
}

/// The first line whose text, after leading white space, begins with `prefix`.
pub open spec fn first_line_starting(ls: Seq<Seq<char>>, prefix: Seq<char>) -> Option<Seq<char>>
    decreases ls.len(),
{
    if ls.len() == 0 {
        None
    } else if starts_with(trim_start(ls[0]), prefix) {
        Some(ls[0])
    } else {
        first_line_starting(ls.drop_first(), prefix)
    }
}

/// Computes `first_line_starting` over the lines of `s`.
pub fn find_line_starting(s: &[char], prefix: &[char]) -> (r: Option<Vec<char>>)
    ensures
        match r {
            Some(l) => first_line_starting(lines(s@), prefix@) == Some(l@),
            None => first_line_starting(lines(s@), prefix@) is None,
        },
{
    let ls = lines_chars(s);
    let ghost all = lines(s@);
    let mut i: usize = 0;
    assert(all.skip(0) =~= all);
    while i < ls.len()
        invariant
            i <= ls@.len(),
            ls@.len() == all.len(),
            all == lines(s@),
            forall|k: int| 0 <= k < ls@.len() ==> #[trigger] ls@[k]@ == all[k],
            first_line_starting(all.skip(i as int), prefix@) == first_line_starting(all, prefix@),
        decreases ls@.len() - i,
    {
        let t = trim_start_chars(ls[i].as_slice());
        assert(all.skip(i as int)[0] == all[i as int]);
        if starts_with_chars(t.as_slice(), prefix) {
            let l = slice_of(ls[i].as_slice(), 0, ls[i].len());
            return Some(l);
        }
        assert(all.skip(i as int).drop_first() =~= all.skip(i + 1));
        i = i + 1;
    }
    None
}

/// The action a UI-TARS reply asks for.
#[derive(PartialEq, Eq, Structural, Clone, Copy)]
pub enum UitarsAction {
    Finished,
    Click,
    DoubleClick,
    RightClick,
    Type,
    Scroll,
    Hover,
}

/// The `Action:` line of a reply, without its label.
pub open spec fn action_line(content: Seq<char>) -> Option<Seq<char>> {
    match first_line_starting(lines(content), "Action:"@) {
        Some(l) => Some(trim(trim_start_matches(l, "Action:"@))),
        None => None,
    }
}

/// The `Thought:` line of a reply, without its label; empty when absent.
pub open spec fn thought_line(content: Seq<char>) -> Seq<char> {
    match first_line_starting(lines(content), "Thought:"@) {
        Some(l) => trim(trim_start_matches(l, "Thought:"@)),
        None => seq![],
    }
}

/// The action named by an action line, if it is one of the known calls.
pub open spec fn classify(a: Seq<char>) -> Option<UitarsAction> {
    if starts_with(a, "finished("@) {
        Some(UitarsAction::Finished)
    } else if starts_with(a, "click("@) || starts_with(a, "left_click("@) {
        Some(UitarsAction::Click)
    } else if starts_with(a, "double_click("@) {
        Some(UitarsAction::DoubleClick)
    } else if starts_with(a, "right_click("@) {
        Some(UitarsAction::RightClick)
    } else if starts_with(a, "type("@) {
        Some(UitarsAction::Type)
    } else if starts_with(a, "scroll("@) {
        Some(UitarsAction::Scroll)
    } else if starts_with(a, "hover("@) {
        Some(UitarsAction::Hover)
    } else {
        None
    }
}

/// The text an action carries: the message of `finished` (the whole line
/// when it has no `content`), the text of `type` (empty when missing), the
/// direction of `scroll` (`down` when missing); empty otherwise.
pub open spec fn action_text(kind: UitarsAction, a: Seq<char>) -> Seq<char> {
    match kind {
        UitarsAction::Finished => match kwarg(a.skip("finished("@.len() as int), "content"@) {
            Some(m) => m,
            None => a,
        },
        UitarsAction::Type => match kwarg(a.skip("type("@.len() as int), "content"@) {
            Some(m) => m,
            None => seq![],
        },
        UitarsAction::Scroll => match kwarg(a, "direction"@) {
            Some(d) => d,
            None => "down"@,
        },
        _ => seq![],
    }
}

/// The part of the screen a scroll without a point of its own aims at.
#[derive(PartialEq, Eq, Structural, Clone, Copy)]
pub enum ScrollSide {
    Up,
    Left,
    Right,
    Down,
}

/// `up`, `left` and `right` name their sides; any other direction is down.
pub open spec fn scroll_side_of(direction: Seq<char>) -> ScrollSide {
    if direction == "up"@ {
        ScrollSide::Up
    } else if direction == "left"@ {
        ScrollSide::Left
    } else if direction == "right"@ {
        ScrollSide::Right
    } else {
        ScrollSide::Down
    }
}

/// Computes `scroll_side_of`.
pub fn scroll_side(direction: &str) -> (s: ScrollSide)
    ensures
        s == scroll_side_of(direction@),
        direction@ == "up"@ ==> s == ScrollSide::Up,
        direction@ == "left"@ ==> s == ScrollSide::Left,
        direction@ == "right"@ ==> s == ScrollSide::Right,
        direction@ != "up"@ && direction@ != "left"@ && direction@ != "right"@ ==> s
            == ScrollSide::Down,
{
    proof {
        lemma_scroll_words_differ();
    }
    if str_eq(direction, "up") {
        ScrollSide::Up
    } else if str_eq(direction, "left") {
        ScrollSide::Left
    } else if str_eq(direction, "right") {
        ScrollSide::Right
    } else {
        ScrollSide::Down
    }
}

/// The three direction words are different texts.
proof fn lemma_scroll_words_differ()
    ensures
        "up"@ != "left"@,
        "up"@ != "right"@,
        "left"@ != "right"@,
{
    reveal_strlit("up");
    reveal_strlit("left");
    reveal_strlit("right");
    assert("up"@.len() != "left"@.len());
    assert("up"@.len() != "right"@.len());
    assert("left"@.len() != "right"@.len());
}

/// Each direction word names its own side of the screen: `up` the top,
/// `left` the left, `right` the right; any other direction (a missing one
/// reads `down`) scrolls down.
pub proof fn law_scroll_direction_names_side(d: Seq<char>)
    ensures
        d == "up"@ ==> scroll_side_of(d) == ScrollSide::Up,
        d == "left"@ ==> scroll_side_of(d) == ScrollSide::Left,
        d == "right"@ ==> scroll_side_of(d) == ScrollSide::Right,
        d != "up"@ && d != "left"@ && d != "right"@ ==> scroll_side_of(d) == ScrollSide::Down,
{
    lemma_scroll_words_differ();
}

/// Each call names its own action: an action line beginning `finished(`
/// is the end of the tour, `click(` or `left_click(` a click,
/// `double_click(` a double click, `right_click(` a right click, `type(`
/// typing, `scroll(` scrolling and `hover(` hovering; a line beginning with
/// none of them is no known action.
pub proof fn law_call_names_action(a: Seq<char>)
    ensures
        starts_with(a, "finished("@) ==> classify(a) == Some(UitarsAction::Finished),
        starts_with(a, "click("@) ==> classify(a) == Some(UitarsAction::Click),
        starts_with(a, "left_click("@) ==> classify(a) == Some(UitarsAction::Click),
        starts_with(a, "double_click("@) ==> classify(a) == Some(UitarsAction::DoubleClick),
        starts_with(a, "right_click("@) ==> classify(a) == Some(UitarsAction::RightClick),
        starts_with(a, "type("@) ==> classify(a) == Some(UitarsAction::Type),
        starts_with(a, "scroll("@) ==> classify(a) == Some(UitarsAction::Scroll),
        starts_with(a, "hover("@) ==> classify(a) == Some(UitarsAction::Hover),
        classify(a) is None <==> !(starts_with(a, "finished("@) || starts_with(a, "click("@) || starts_with(a, "left_click("@) || starts_with(a, "double_click("@) || starts_with(a, "right_click("@) || starts_with(a, "type("@) || starts_with(a, "scroll("@) || starts_with(a, "hover("@)),
{
    reveal_strlit("finished(");
    reveal_strlit("click(");
    reveal_strlit("left_click(");
    reveal_strlit("double_click(");
    reveal_strlit("right_click(");
    reveal_strlit("type(");
    reveal_strlit("scroll(");
    reveal_strlit("hover(");
    if a.len() > 0 {
        assert(starts_with(a, "finished("@) ==> a[0] == "finished("@[0]);
        assert(starts_with(a, "click("@) ==> a[0] == "click("@[0]);
        assert(starts_with(a, "left_click("@) ==> a[0] == "left_click("@[0]);
        assert(starts_with(a, "double_click("@) ==> a[0] == "double_click("@[0]);
        assert(starts_with(a, "right_click("@) ==> a[0] == "right_click("@[0]);
        assert(starts_with(a, "type("@) ==> a[0] == "type("@[0]);
        assert(starts_with(a, "scroll("@) ==> a[0] == "scroll("@[0]);
        assert(starts_with(a, "hover("@) ==> a[0] == "hover("@[0]);
    }
}

/// A parsed UI-TARS reply. `point` holds the two number texts of the
/// `[[x,y]]` argument (on the 0–999 grid) when present; it is `None` for
/// `finished`, which targets the centre.
pub struct UitarsReply {
    pub action: UitarsAction,
    pub thought: String,
    pub text: String,
    pub point: Option<(String, String)>,
}

/// The views of an optional pair of strings.
pub open spec fn pair_view(p: Option<(String, String)>) -> Option<(Seq<char>, Seq<char>)> {
    match p {
        Some((x, y)) => Some((x@, y@)),
        None => None,
    }
}

/// The error text when a reply has no `Action:` line.
pub open spec fn no_action_error(content: Seq<char>) -> Seq<char> {
    "UI-TARS: no Action line in:\n"@ + content
}

/// The error text for an action that is none of the known calls.
pub open spec fn unrecognised_error(a: Seq<char>) -> Seq<char> {
    "UI-TARS: unrecognised action: "@ + a
}

/// Reads a UI-TARS reply.
pub fn parse_uitars_response(content: &str) -> (r: Result<UitarsReply, String>)
    ensures
        match r {
            Ok(rep) => {
                &&& action_line(content@) matches Some(a)
                &&& classify(a) == Some(rep.action)
                &&& rep.thought@ == thought_line(content@)
                &&& rep.text@ == action_text(rep.action, a)
                &&& pair_view(rep.point) == (if rep.action == UitarsAction::Finished {
                    None
                } else {
                    point_text(a)
                })
            },
            Err(e) => match action_line(content@) {
                None => e@ == no_action_error(content@),
                Some(a) => classify(a) is None && e@ == unrecognised_error(a),
            },
        },
{
    let cs = to_chars(content);
    let action_label = to_chars("Action:");
    let thought_label = to_chars("Thought:");
    let line = match find_line_starting(cs.as_slice(), action_label.as_slice()) {
        Some(l) => l,
        None => {
            let mut e = String::new();
            push_str(&mut e, "UI-TARS: no Action line in:\n");
            push_str(&mut e, content);
            return Err(e);
        },
    };
    let stripped = trim_start_matches_chars(line.as_slice(), action_label.as_slice());
    let a = trim_chars(stripped.as_slice());
    assert(action_line(content@) == Some(a@));
    let thought = match find_line_starting(cs.as_slice(), thought_label.as_slice()) {
        Some(l) => {
            let st = trim_start_matches_chars(l.as_slice(), thought_label.as_slice());
            from_chars(trim_chars(st.as_slice()).as_slice())
        },
        None => String::new(),
    };
    let a_str = from_chars(a.as_slice());
    let finished = to_chars("finished(");
    if let Some(rest) = strip_prefix_chars(a.as_slice(), finished.as_slice()) {
        let text = match kwarg_chars(rest.as_slice(), to_chars("content").as_slice()) {
            Some(m) => from_chars(m.as_slice()),
            None => a_str,
        };
        return Ok(UitarsReply { action: UitarsAction::Finished, thought, text, point: None });
    }
    let point = point_arg(a_str.as_str());
    let kind = if starts_with_chars(a.as_slice(), to_chars("click(").as_slice())
        || starts_with_chars(a.as_slice(), to_chars("left_click(").as_slice()) {
        UitarsAction::Click
    } else if starts_with_chars(a.as_slice(), to_chars("double_click(").as_slice()) {
        UitarsAction::DoubleClick
    } else if starts_with_chars(a.as_slice(), to_chars("right_click(").as_slice()) {
        UitarsAction::RightClick
    } else if starts_with_chars(a.as_slice(), to_chars("type(").as_slice()) {
        UitarsAction::Type
    } else if starts_with_chars(a.as_slice(), to_chars("scroll(").as_slice()) {
        UitarsAction::Scroll
    } else if starts_with_chars(a.as_slice(), to_chars("hover(").as_slice()) {
        UitarsAction::Hover
    } else {
        let mut e = String::new();
        push_str(&mut e, "UI-TARS: unrecognised action: ");
        push_chars(&mut e, a.as_slice());
        return Err(e);
    };
    let text = match kind {
        UitarsAction::Type => {
            let typ = to_chars("type(");
            let rest = slice_of(a.as_slice(), typ.len(), a.len());
            assert(rest@ =~= a@.skip("type("@.len() as int));
            match kwarg_chars(rest.as_slice(), to_chars("content").as_slice()) {
                Some(m) => from_chars(m.as_slice()),
                None => String::new(),
            }
        },
        UitarsAction::Scroll => match kwarg_chars(a.as_slice(), to_chars("direction").as_slice()) {
            Some(d) => from_chars(d.as_slice()),
            None => "down".to_owned(),
        },
        _ => String::new(),
    };
    proof {
        reveal_strlit("");
    }
    Ok(UitarsReply { action: kind, thought, text, point })
}

/// The name a step of the given action is shown with.
pub open spec fn uitars_action_name(a: UitarsAction) -> Seq<char> {
    match a {
        UitarsAction::Finished => "Finished"@,
        UitarsAction::Click => "Click"@,
        UitarsAction::DoubleClick => "Double-click"@,
        UitarsAction::RightClick => "Right-click"@,
        UitarsAction::Type => "Type"@,
        UitarsAction::Scroll => "Scroll"@,
        UitarsAction::Hover => "Hover"@,
    }
}

/// The description of a step where it does not depend on the point: the
/// answer of `finished`, the text of `type`, `Scroll {direction}`. The point
/// actions are described by their coordinates, which the caller writes.
pub open spec fn uitars_description(a: UitarsAction, text: Seq<char>) -> Option<Seq<char>> {
    match a {
        UitarsAction::Finished => Some(text),
        UitarsAction::Type => Some(text),
        UitarsAction::Scroll => Some("Scroll "@ + text),
        _ => None,
    }
}

/// How a UI-TARS reply is shown as a step.
pub struct UitarsStepKind {
    /// The action's name (`Click`, `Double-click`, …).
    pub name: String,
    /// Whether the step ends the tour (only `finished` does).
    pub is_final: bool,
    /// The description, unless it is the point's coordinates.
    pub description: Option<String>,
}

/// The views of an optional string.
pub open spec fn opt_string_view(o: Option<String>) -> Option<Seq<char>> {
    match o {
        Some(s) => Some(s@),
        None => None,
    }
}

/// Names the step a UI-TARS reply asks for.
pub fn uitars_step_kind(rep: &UitarsReply) -> (k: UitarsStepKind)
    ensures
        k.name@ == uitars_action_name(rep.action),
        k.is_final == (rep.action == UitarsAction::Finished),
        opt_string_view(k.description) == uitars_description(rep.action, rep.text@),        rep.action == UitarsAction::Finished ==> k.name@ == "Finished"@ && opt_string_view(
            k.description,
        ) == Some(rep.text@),
        rep.action == UitarsAction::Click ==> k.name@ == "Click"@ && k.description is None,
        rep.action == UitarsAction::DoubleClick ==> k.name@ == "Double-click"@ && k.description is None,
        rep.action == UitarsAction::RightClick ==> k.name@ == "Right-click"@ && k.description is None,
        rep.action == UitarsAction::Hover ==> k.name@ == "Hover"@ && k.description is None,
        rep.action == UitarsAction::Type ==> k.name@ == "Type"@ && opt_string_view(k.description)
            == Some(rep.text@),
        rep.action == UitarsAction::Scroll ==> k.name@ == "Scroll"@ && opt_string_view(
            k.description,
        ) == Some("Scroll "@ + rep.text@),
{
    let name = match rep.action {
        UitarsAction::Finished => "Finished",
        UitarsAction::Click => "Click",
        UitarsAction::DoubleClick => "Double-click",
        UitarsAction::RightClick => "Right-click",
        UitarsAction::Type => "Type",
        UitarsAction::Scroll => "Scroll",
        UitarsAction::Hover => "Hover",
    };
    let description = match rep.action {
        UitarsAction::Finished => Some(from_chars(to_chars(rep.text.as_str()).as_slice())),
        UitarsAction::Type => Some(from_chars(to_chars(rep.text.as_str()).as_slice())),
        UitarsAction::Scroll => {
            let mut d = String::new();
            push_str(&mut d, "Scroll ");
            push_str(&mut d, rep.text.as_str());
            Some(d)
        },
        _ => None,
    };
    let is_final = match rep.action {
        UitarsAction::Finished => true,
        _ => false,
    };
    UitarsStepKind { name: name.to_owned(), is_final, description }
}

} // verus!
