//! The overlay's state machine: hidden → dot → input → loading → step →
//! (loading again, or done) → hidden, with Escape hiding from anywhere.

use vstd::prelude::*;
use crate::config::{PointerConfig, spec_effective_api_key};
use crate::events::{KeyOutcome, VK_DELETE, VK_RETURN, VK_KP_ENTER, VK_ESCAPE, without_last,
    printable_only};
use crate::text::{push_str, push_chars, decimal, decimal_chars, str_eq, to_uppercase,
    unicode_uppercase};

verus! {

/// The overlay's phase; its number is the value the UI reads.
#[derive(PartialEq, Eq, Structural, Clone, Copy)]
pub enum Phase {
    Hidden,
    Dot,
    Input,
    Loading,
    Step,
    Done,
}

/// The number of a phase: 0 hidden, 1 dot, 2 input, 3 loading, 4 step, 5 done.
pub open spec fn phase_number(p: Phase) -> u8 {
    match p {
        Phase::Hidden => 0,
        Phase::Dot => 1,
        Phase::Input => 2,
        Phase::Loading => 3,
        Phase::Step => 4,
        Phase::Done => 5,
    }
}

/// Animation ticks for the dot's move to a new target.
pub const ANIM_TICKS: u32 = 16;

/// Pulses between pressing "Done" on a final step and the completion card.
pub const COMPLETE_COUNTDOWN_START: i32 = 14;

/// Pulses the completion card stays before the overlay hides itself.
pub const DONE_TICKS: u32 = 100;

/// What a `Tour` holds.
pub struct TourView {
    pub phase: Phase,
    pub input: Seq<char>,
    pub goal: Seq<char>,
    pub final_answer: Seq<char>,
    pub step_is_final: bool,
    pub click_armed: bool,
    pub countdown: i32,
    pub blink_tick: u32,
    pub cursor_tick: u32,
    pub cursor_on: bool,
    pub load_tick: u32,
    pub done_tick: u32,
    pub anim_tick: u32,
}

/// The overlay's state apart from windows and the agent.
pub struct Tour {
    phase: Phase,
    input: String,
    goal: String,
    final_answer: String,
    step_is_final: bool,
    click_armed: bool,
    countdown: i32,
    blink_tick: u32,
    cursor_tick: u32,
    cursor_on: bool,
    load_tick: u32,
    done_tick: u32,
    anim_tick: u32,
}

impl View for Tour {
    type V = TourView;

    closed spec fn view(&self) -> TourView {
        TourView {
            phase: self.phase,
            input: self.input@,
            goal: self.goal@,
            final_answer: self.final_answer@,
            step_is_final: self.step_is_final,
            click_armed: self.click_armed,
            countdown: self.countdown,
            blink_tick: self.blink_tick,
            cursor_tick: self.cursor_tick,
            cursor_on: self.cursor_on,
            load_tick: self.load_tick,
            done_tick: self.done_tick,
            anim_tick: self.anim_tick,
        }
    }
}

/// The state at start-up.
pub open spec fn initial_tour() -> TourView {
    TourView {
        phase: Phase::Hidden,
        input: seq![],
        goal: seq![],
        final_answer: seq![],
        step_is_final: false,
        click_armed: false,
        countdown: -1i32,
        blink_tick: 0,
        cursor_tick: 0,
        cursor_on: true,
        load_tick: 0,
        done_tick: 0,
        anim_tick: 0,
    }
}

/// Showing the dot.
pub open spec fn after_to_dot(t: TourView) -> TourView {
    TourView { phase: Phase::Dot, blink_tick: 0, ..t }
}

/// Hiding everything: the prompt text and the final answer are cleared.
pub open spec fn after_to_hidden(t: TourView) -> TourView {
    TourView { phase: Phase::Hidden, input: seq![], final_answer: seq![], ..t }
}

/// The shortcut: show the dot when hidden, hide otherwise.
pub open spec fn after_toggle(t: TourView) -> TourView {
    if t.phase == Phase::Hidden {
        after_to_dot(t)
    } else {
        after_to_hidden(t)
    }
}

/// Opening the prompt.
pub open spec fn after_to_input(t: TourView) -> TourView {
    TourView { phase: Phase::Input, cursor_tick: 0, cursor_on: true, ..t }
}

/// Submitting the prompt: the text becomes the goal and the prompt is
/// cleared; without an API key the overlay hides instead of loading.
pub open spec fn after_to_loading(t: TourView, has_key: bool) -> TourView {
    TourView {
        phase: if has_key {
            Phase::Loading
        } else {
            Phase::Hidden
        },
        goal: t.input,
        input: seq![],
        load_tick: 0,
        ..t
    }
}

/// A click step: the user's own click near the target advances the tour.
pub open spec fn is_click_action(action: Seq<char>) -> bool {
    action == "Click"@ || action == "Double-click"@ || action == "Right-click"@
}

/// Showing a step; a final step's description is kept as the answer.
pub open spec fn after_show_step(t: TourView, action: Seq<char>, description: Seq<char>, is_final: bool) -> TourView {
    TourView {
        phase: Phase::Step,
        click_armed: is_click_action(action),
        step_is_final: is_final,
        final_answer: if is_final {
            description
        } else {
            t.final_answer
        },
        blink_tick: 0,
        anim_tick: 0,
        ..t
    }
}

/// What pressing "I did it" / "Done" leads to.
pub enum NextStep {
    /// The completion card was showing: hide everything.
    Close,
    /// The finishing countdown already runs: nothing happens.
    Ignore,
    /// The final step was confirmed: the countdown to the completion card starts.
    Finish,
    /// Another step is needed: loading starts and the agent is asked again.
    Continue,
}

/// The outcome of pressing "I did it" / "Done".
pub open spec fn next_step_outcome(t: TourView) -> NextStep {
    if t.phase == Phase::Done {
        NextStep::Close
    } else if t.step_is_final {
        if t.countdown >= 0 {
            NextStep::Ignore
        } else {
            NextStep::Finish
        }
    } else {
        NextStep::Continue
    }
}

/// The state after pressing "I did it" / "Done".
pub open spec fn after_next_step(t: TourView) -> TourView {
    match next_step_outcome(t) {
        NextStep::Close => after_to_hidden(t),
        NextStep::Ignore => t,
        NextStep::Finish => TourView { countdown: COMPLETE_COUNTDOWN_START, ..t },
        NextStep::Continue => TourView { phase: Phase::Loading, load_tick: 0, ..t },
    }
}

/// Showing the completion card.
pub open spec fn after_show_completion(t: TourView) -> TourView {
    TourView { phase: Phase::Done, done_tick: 0, ..t }
}

/// One 50 ms timer pulse.
pub open spec fn after_pulse(t: TourView) -> TourView {
    match t.phase {
        Phase::Dot => TourView { blink_tick: t.blink_tick.wrapping_add(1), ..t },
        Phase::Step => {
            let t1 = TourView {
                blink_tick: t.blink_tick.wrapping_add(1),
                anim_tick: if t.anim_tick <= ANIM_TICKS {
                    (t.anim_tick + 1) as u32
                } else {
                    t.anim_tick
                },
                ..t
            };
            if t.countdown > 0 {
                TourView { countdown: (t.countdown - 1) as i32, ..t1 }
            } else if t.countdown == 0 {
                after_show_completion(TourView { countdown: -1i32, ..t1 })
            } else {
                t1
            }
        },
        Phase::Input => TourView {
            cursor_tick: t.cursor_tick.wrapping_add(1),
            cursor_on: if t.cursor_tick % 10 == 0 {
                (t.cursor_tick / 10) % 2 == 0
            } else {
                t.cursor_on
            },
            ..t
        },
        Phase::Loading => TourView { load_tick: t.load_tick.wrapping_add(1), ..t },
        Phase::Done => if t.done_tick >= DONE_TICKS {
            after_to_hidden(TourView { done_tick: t.done_tick.wrapping_add(1), ..t })
        } else {
            TourView { done_tick: t.done_tick.wrapping_add(1), ..t }
        },
        Phase::Hidden => t,
    }
}

/// What a pulse asks the UI to do.
pub struct PulseEffect {
    /// Redraw the dot (blinking, spinner, or moving).
    pub redraw_dot: bool,
    /// The blink tick the dot's brightness is computed from.
    pub blink_tick: Option<u32>,
    /// Move the dot along its animation; the tick the position is computed from.
    pub animate: Option<u32>,
    /// Show the completion card.
    pub show_completion: bool,
    /// Refresh the prompt text (the cursor blinked).
    pub redisplay: bool,
    /// Hide everything.
    pub hide: bool,
}


/// What a pulse asks the UI to do, as a function of the state before it.
pub open spec fn pulse_effect(t: TourView, e: PulseEffect) -> bool {
    &&& e.redraw_dot == (t.phase == Phase::Dot || t.phase == Phase::Step || t.phase
        == Phase::Loading)
    &&& e.blink_tick == (if t.phase == Phase::Dot || t.phase == Phase::Step {
        Some(t.blink_tick)
    } else {
        None
    })
    &&& e.animate == (if t.phase == Phase::Step && t.anim_tick <= ANIM_TICKS {
        Some(t.anim_tick)
    } else {
        None
    })
    &&& e.show_completion == (t.phase == Phase::Step && t.countdown == 0)
    &&& e.redisplay == (t.phase == Phase::Input && t.cursor_tick % 10 == 0)
    &&& e.hide == (t.phase == Phase::Done && t.done_tick >= DONE_TICKS)
}

/// The completion card's main text.
pub open spec fn completion_body(goal: Seq<char>, final_answer: Seq<char>) -> Seq<char> {
    if final_answer.len() > 0 {
        final_answer
    } else if goal.len() == 0 {
        "You completed all the steps — great job!"@
    } else {
        "You completed: "@ + goal
    }
}

/// The completion card's second line.
pub open spec fn completion_reason(goal: Seq<char>, final_answer: Seq<char>) -> Seq<char> {
    if final_answer.len() > 0 {
        "Goal: "@ + goal
    } else {
        seq![]
    }
}

/// The texts of the completion card.
pub struct CompletionCard {
    pub body: String,
    pub reason: String,
}

/// The prompt text as displayed: with a bar cursor while typing and the
/// cursor is in its visible half-period.
pub open spec fn displayed(t: TourView, text: Seq<char>) -> Seq<char> {
    if t.phase == Phase::Input && t.cursor_on {
        text + "│"@
    } else {
        text
    }
}

impl Tour {
    /// The overlay at start-up: hidden, nothing typed.
    pub fn new() -> (t: Tour)
        ensures
            t@ == initial_tour(),
    {
        let t = Tour {
            phase: Phase::Hidden,
            input: String::new(),
            goal: String::new(),
            final_answer: String::new(),
            step_is_final: false,
            click_armed: false,
            countdown: -1,
            blink_tick: 0,
            cursor_tick: 0,
            cursor_on: true,
            load_tick: 0,
            done_tick: 0,
            anim_tick: 0,
        };
        assert(t@ =~= initial_tour());
        t
    }

    /// The current phase.
    pub fn phase(&self) -> (p: Phase)
        ensures
            p == self@.phase,
    {
        self.phase
    }

    /// The current phase's number (0 hidden .. 5 done).
    pub fn phase_number(&self) -> (n: u8)
        ensures
            n == phase_number(self@.phase),
    {
        match self.phase {
            Phase::Hidden => 0,
            Phase::Dot => 1,
            Phase::Input => 2,
            Phase::Loading => 3,
            Phase::Step => 4,
            Phase::Done => 5,
        }
    }

    /// The prompt text typed so far.
    pub fn input(&self) -> (s: &str)
        ensures
            s@ == self@.input,
    {
        self.input.as_str()
    }

    /// The goal of the current tour.
    pub fn goal(&self) -> (s: &str)
        ensures
            s@ == self@.goal,
    {
        self.goal.as_str()
    }

    /// The final answer, once a final step was shown.
    pub fn final_answer(&self) -> (s: &str)
        ensures
            s@ == self@.final_answer,
    {
        self.final_answer.as_str()
    }

    /// Whether the current step is a click the user may perform on the target.
    pub fn click_armed(&self) -> (b: bool)
        ensures
            b == self@.click_armed,
    {
        self.click_armed
    }

    /// The spinner's tick while loading.
    pub fn load_tick(&self) -> (n: u32)
        ensures
            n == self@.load_tick,
    {
        self.load_tick
    }

    /// Shows the dot.
    pub fn to_dot(&mut self)
        ensures
            final(self)@ == after_to_dot(old(self)@),
            final(self)@.phase == Phase::Dot,
            final(self)@.input == old(self)@.input,
    {
        self.phase = Phase::Dot;
        self.blink_tick = 0;
    }

    /// Hides everything and forgets the prompt text and the final answer.
    pub fn to_hidden(&mut self)
        ensures
            final(self)@ == after_to_hidden(old(self)@),
            final(self)@.phase == Phase::Hidden,
            final(self)@.input.len() == 0,
            final(self)@.final_answer.len() == 0,
            final(self)@.goal == old(self)@.goal,
    {
        self.phase = Phase::Hidden;
        self.input = String::new();
        self.final_answer = String::new();
        assert(self@ =~= after_to_hidden(old(self)@));
    }

    /// The shortcut: shows the dot when hidden (returns `true`), hides
    /// otherwise (returns `false`).
    pub fn toggle(&mut self) -> (shown: bool)
        ensures
            final(self)@ == after_toggle(old(self)@),
            shown == (old(self)@.phase == Phase::Hidden),
            old(self)@.phase == Phase::Hidden ==> final(self)@.phase == Phase::Dot,
            old(self)@.phase != Phase::Hidden ==> final(self)@.phase == Phase::Hidden
                && final(self)@.input.len() == 0 && final(self)@.final_answer.len() == 0,
    {
        if self.phase == Phase::Hidden {
            self.to_dot();
            true
        } else {
            self.to_hidden();
            false
        }
    }

    /// Opens the prompt.
    pub fn to_input(&mut self)
        ensures
            final(self)@ == after_to_input(old(self)@),
            final(self)@.phase == Phase::Input,
            final(self)@.input == old(self)@.input,
            final(self)@.cursor_on,
    {
        self.phase = Phase::Input;
        self.cursor_tick = 0;
        self.cursor_on = true;
    }

    /// Submits the prompt: its text becomes the goal and the prompt is
    /// cleared. Returns the goal when the selected provider has an API key
    /// and loading starts; without a key the overlay hides and `None` comes
    /// back.
    pub fn to_loading(&mut self, cfg: &PointerConfig) -> (query: Option<String>)
        ensures
            final(self)@ == after_to_loading(
                old(self)@,
                spec_effective_api_key(*cfg).len() > 0,
            ),
            match query {
                Some(q) => spec_effective_api_key(*cfg).len() > 0 && q@ == old(self)@.input,
                None => spec_effective_api_key(*cfg).len() == 0,
            },
            final(self)@.phase == (if spec_effective_api_key(*cfg).len() > 0 {
                Phase::Loading
            } else {
                Phase::Hidden
            }),
            final(self)@.goal == old(self)@.input,
            final(self)@.input.len() == 0,
    {
        let query = self.input.clone();
        self.goal = self.input.clone();
        self.input = String::new();
        self.load_tick = 0;
        self.phase = Phase::Loading;
        if cfg.effective_api_key().is_empty() {
            self.phase = Phase::Hidden;
            assert(self@ =~= after_to_loading(old(self)@, false));
            return None;
        }
        assert(self@ =~= after_to_loading(old(self)@, true));
        Some(query)
    }

    /// Applies a key typed into the prompt (see `events::process_key`).
    pub fn process_key(&mut self, keycode: u16, chars: &str) -> (r: KeyOutcome)
        ensures
            final(self)@ == (TourView { input: final(self)@.input, ..old(self)@ }),
            keycode == VK_DELETE ==> (r is Redisplay && final(self)@.input == without_last(
                old(self)@.input,
            )),
            (keycode == VK_RETURN || keycode == VK_KP_ENTER) ==> (r is Submit && final(self)@.input
                == old(self)@.input),
            keycode == VK_ESCAPE ==> (r is Dismiss && final(self)@.input == old(self)@.input),
            (keycode != VK_DELETE && keycode != VK_RETURN && keycode != VK_KP_ENTER && keycode
                != VK_ESCAPE) ==> (final(self)@.input == old(self)@.input + printable_only(chars@)
                && (r is Redisplay <==> printable_only(chars@).len() > 0)),
    {
        let r = crate::events::process_key(&mut self.input, keycode, chars);
        assert(self@ =~= (TourView { input: self@.input, ..old(self)@ }));
        r
    }

    /// Applies a key pressed in the prompt view itself (see
    /// `events::process_view_key`): with Command held only Delete, Return,
    /// Enter and Escape act.
    pub fn process_view_key(&mut self, keycode: u16, command: bool, chars: &str) -> (r: KeyOutcome)
        ensures
            final(self)@ == (TourView { input: final(self)@.input, ..old(self)@ }),
            (command && keycode != VK_DELETE && keycode != VK_RETURN && keycode != VK_KP_ENTER
                && keycode != VK_ESCAPE) ==> (r is Ignore && final(self)@.input == old(self)@.input),
            keycode == VK_DELETE ==> (r is Redisplay && final(self)@.input == without_last(
                old(self)@.input,
            )),
            (keycode == VK_RETURN || keycode == VK_KP_ENTER) ==> (r is Submit && final(self)@.input
                == old(self)@.input),
            keycode == VK_ESCAPE ==> (r is Dismiss && final(self)@.input == old(self)@.input),
            (!command && keycode != VK_DELETE && keycode != VK_RETURN && keycode != VK_KP_ENTER
                && keycode != VK_ESCAPE) ==> (final(self)@.input == old(self)@.input
                + printable_only(chars@) && (r is Redisplay <==> printable_only(chars@).len() > 0)),
    {
        let r = crate::events::process_view_key(&mut self.input, keycode, command, chars);
        assert(self@ =~= (TourView { input: self@.input, ..old(self)@ }));
        r
    }

    /// Whether the agent may be asked for the next step: only while a tour
    /// is under way; without one the overlay hides.
    pub fn fire_next_step(&mut self, agent_ready: bool) -> (ask: bool)
        ensures
            ask == agent_ready,
            final(self)@ == if agent_ready {
                old(self)@
            } else {
                after_to_hidden(old(self)@)
            },
    {
        if !agent_ready {
            self.to_hidden();
        }
        agent_ready
    }

    /// Shows a step the agent returned.
    pub fn show_step(&mut self, action: &str, description: &str, is_final: bool)
        ensures
            final(self)@ == after_show_step(old(self)@, action@, description@, is_final),
            final(self)@.phase == Phase::Step,
            final(self)@.step_is_final == is_final,
            final(self)@.click_armed <==> (action@ == "Click"@ || action@ == "Double-click"@
                || action@ == "Right-click"@),
            is_final ==> final(self)@.final_answer == description@,
            !is_final ==> final(self)@.final_answer == old(self)@.final_answer,
            final(self)@.goal == old(self)@.goal,
    {
        let click = str_eq(action, "Click") || str_eq(action, "Double-click") || str_eq(
            action,
            "Right-click",
        );
        self.click_armed = click;
        self.step_is_final = is_final;
        if is_final {
            self.final_answer = description.to_owned();
        }
        self.blink_tick = 0;
        self.anim_tick = 0;
        self.phase = Phase::Step;
        assert(self@ =~= after_show_step(old(self)@, action@, description@, is_final));
    }

    /// "I did it" / "Done" was pressed (or the target was clicked).
    pub fn on_next_step_pressed(&mut self) -> (r: NextStep)
        ensures
            r == next_step_outcome(old(self)@),
            final(self)@ == after_next_step(old(self)@),
            old(self)@.phase == Phase::Done ==> r is Close && final(self)@.phase == Phase::Hidden,
            old(self)@.phase != Phase::Done && !old(self)@.step_is_final ==> r is Continue
                && final(self)@.phase == Phase::Loading && final(self)@.load_tick == 0,
            old(self)@.phase != Phase::Done && old(self)@.step_is_final && old(self)@.countdown < 0
                ==> r is Finish && final(self)@.countdown == 14 && final(self)@.phase == old(
                self,
            )@.phase,
            old(self)@.phase != Phase::Done && old(self)@.step_is_final && old(self)@.countdown >= 0
                ==> r is Ignore && final(self)@ == old(self)@,
    {
        if self.phase == Phase::Done {
            self.to_hidden();
            return NextStep::Close;
        }
        if self.step_is_final {
            if self.countdown >= 0 {
                return NextStep::Ignore;
            }
            self.countdown = COMPLETE_COUNTDOWN_START;
            return NextStep::Finish;
        }
        self.load_tick = 0;
        self.phase = Phase::Loading;
        NextStep::Continue
    }

    /// Shows the completion card and returns its texts.
    pub fn show_completion(&mut self) -> (card: CompletionCard)
        ensures
            final(self)@ == after_show_completion(old(self)@),
            final(self)@.phase == Phase::Done,
            final(self)@.done_tick == 0,
            card.body@ == completion_body(old(self)@.goal, old(self)@.final_answer),
            card.reason@ == completion_reason(old(self)@.goal, old(self)@.final_answer),
            old(self)@.final_answer.len() > 0 ==> card.body@ == old(self)@.final_answer
                && card.reason@ == "Goal: "@ + old(self)@.goal,
            old(self)@.final_answer.len() == 0 && old(self)@.goal.len() == 0 ==> card.body@
                == "You completed all the steps — great job!"@ && card.reason@.len() == 0,
            old(self)@.final_answer.len() == 0 && old(self)@.goal.len() > 0 ==> card.body@
                == "You completed: "@ + old(self)@.goal && card.reason@.len() == 0,
    {
        let mut body = String::new();
        let mut reason = String::new();
        if !self.final_answer.as_str().is_empty() {
            push_str(&mut body, self.final_answer.as_str());
            push_str(&mut reason, "Goal: ");
            push_str(&mut reason, self.goal.as_str());
        } else if self.goal.as_str().is_empty() {
            push_str(&mut body, "You completed all the steps — great job!");
        } else {
            push_str(&mut body, "You completed: ");
            push_str(&mut body, self.goal.as_str());
        }
        proof {
            reveal_strlit("");
        }
        assert(body@ =~= completion_body(self@.goal, self@.final_answer));
        assert(reason@ =~= completion_reason(self@.goal, self@.final_answer));
        self.done_tick = 0;
        self.phase = Phase::Done;
        CompletionCard { body, reason }
    }

    /// One 50 ms timer pulse.
    pub fn pulse(&mut self) -> (e: PulseEffect)
        ensures
            final(self)@ == after_pulse(old(self)@),
            pulse_effect(old(self)@, e),
            old(self)@.phase == Phase::Hidden ==> final(self)@ == old(self)@ && !e.hide
                && !e.show_completion && !e.redraw_dot,
            old(self)@.phase == Phase::Step && old(self)@.countdown == 0 ==> final(self)@.phase
                == Phase::Done && e.show_completion,
            old(self)@.phase == Phase::Step && old(self)@.countdown > 0 ==> final(self)@.phase
                == Phase::Step && final(self)@.countdown == old(self)@.countdown - 1,
            old(self)@.phase == Phase::Done && old(self)@.done_tick >= 100 ==> final(self)@.phase
                == Phase::Hidden && e.hide,
            old(self)@.phase == Phase::Done && old(self)@.done_tick < 100 ==> final(self)@.phase
                == Phase::Done && !e.hide,
            old(self)@.phase == Phase::Input && old(self)@.cursor_tick % 10 == 0 ==> e.redisplay
                && final(self)@.cursor_on == ((old(self)@.cursor_tick / 10) % 2 == 0),
            old(self)@.phase == Phase::Loading ==> final(self)@.phase == Phase::Loading
                && final(self)@.load_tick == old(self)@.load_tick.wrapping_add(1),
    {
        let mut e = PulseEffect {
            redraw_dot: false,
            blink_tick: None,
            animate: None,
            show_completion: false,
            redisplay: false,
            hide: false,
        };
        match self.phase {
            Phase::Dot => {
                e.blink_tick = Some(self.blink_tick);
                self.blink_tick = self.blink_tick.wrapping_add(1);
                e.redraw_dot = true;
            },
            Phase::Step => {
                e.blink_tick = Some(self.blink_tick);
                self.blink_tick = self.blink_tick.wrapping_add(1);
                if self.anim_tick <= ANIM_TICKS {
                    e.animate = Some(self.anim_tick);
                    self.anim_tick = self.anim_tick + 1;
                }
                if self.countdown > 0 {
                    self.countdown = self.countdown - 1;
                } else if self.countdown == 0 {
                    self.countdown = -1;
                    self.done_tick = 0;
                    self.phase = Phase::Done;
                    e.show_completion = true;
                }
                e.redraw_dot = true;
            },
            Phase::Input => {
                let tick = self.cursor_tick;
                self.cursor_tick = self.cursor_tick.wrapping_add(1);
                if tick % 10 == 0 {
                    self.cursor_on = (tick / 10) % 2 == 0;
                    e.redisplay = true;
                }
            },
            Phase::Loading => {
                self.load_tick = self.load_tick.wrapping_add(1);
                e.redraw_dot = true;
            },
            Phase::Done => {
                let tick = self.done_tick;
                self.done_tick = self.done_tick.wrapping_add(1);
                if tick >= DONE_TICKS {
                    self.to_hidden();
                    e.hide = true;
                }
            },
            Phase::Hidden => {},
        }
        assert(self@ =~= after_pulse(old(self)@));
        e
    }

    /// The prompt text as displayed now.
    pub fn display_text(&self, text: &str) -> (s: String)
        ensures
            s@ == displayed(self@, text@),
    {
        let mut s = String::new();
        push_str(&mut s, text);
        if self.phase == Phase::Input && self.cursor_on {
            push_str(&mut s, "│");
        }
        assert(s@ =~= displayed(self@, text@));
        s
    }
}

/// The state after `n` pulses.
pub open spec fn pulses(t: TourView, n: nat) -> TourView
    decreases n,
{
    if n == 0 {
        t
    } else {
        pulses(after_pulse(t), (n - 1) as nat)
    }
}

/// Toggling from hidden shows the dot; toggling again hides it.
pub proof fn law_toggle_round_trip(t: TourView)
    requires
        t.phase == Phase::Hidden,
    ensures
        after_toggle(t).phase == Phase::Dot,
        after_toggle(after_toggle(t)).phase == Phase::Hidden,
{
}

/// The shortcut pressed while anything shows (dot, prompt, loading, step
/// or completion card) hides the overlay and forgets the prompt text and the
/// answer; pressed while hidden it shows the dot.
pub proof fn law_toggle_hides_when_shown(t: TourView)
    ensures
        t.phase != Phase::Hidden ==> after_toggle(t).phase == Phase::Hidden
            && after_toggle(t).input.len() == 0 && after_toggle(t).final_answer.len() == 0
            && after_toggle(t).goal == t.goal,
        t.phase == Phase::Hidden ==> after_toggle(t).phase == Phase::Dot && after_toggle(t).input
            == t.input,
{
}

/// Hiding always lands in the hidden phase with no prompt text and no
/// answer, whatever the phase before.
pub proof fn law_hidden_is_clean(t: TourView)
    ensures
        after_to_hidden(t).phase == Phase::Hidden,
        after_to_hidden(t).input.len() == 0,
        after_to_hidden(t).final_answer.len() == 0,
{
}

/// Submitting without an API key hides the overlay; with one, loading
/// starts and the typed text becomes the goal.
pub proof fn law_submit(t: TourView, has_key: bool)
    ensures
        after_to_loading(t, has_key).phase == (if has_key {
            Phase::Loading
        } else {
            Phase::Hidden
        }),
        after_to_loading(t, has_key).goal == t.input,
        after_to_loading(t, has_key).input.len() == 0,
{
}

/// Confirming a step that is not final asks the agent for the next one.
pub proof fn law_next_step_continues(t: TourView)
    requires
        t.phase == Phase::Step,
        !t.step_is_final,
    ensures
        next_step_outcome(t) == NextStep::Continue,
        after_next_step(t).phase == Phase::Loading,
{
}

/// While the countdown runs on a step, `k` more pulses lower it by `k`
/// without leaving the step.
proof fn lemma_countdown(t: TourView, k: nat)
    requires
        t.phase == Phase::Step,
        t.countdown >= k,
    ensures
        pulses(t, k).phase == Phase::Step,
        pulses(t, k).countdown == t.countdown - k,
    decreases k,
{
    if k > 0 {
        lemma_countdown(after_pulse(t), (k - 1) as nat);
    }
}

/// Confirming the final step shows the completion card after exactly
/// `COMPLETE_COUNTDOWN_START + 1` pulses (about 0.7 s), and not before.
pub proof fn law_final_step_completes(t: TourView)
    requires
        t.phase == Phase::Step,
        t.step_is_final,
        t.countdown < 0,
    ensures
        next_step_outcome(t) == NextStep::Finish,
        pulses(after_next_step(t), COMPLETE_COUNTDOWN_START as nat).phase == Phase::Step,
        pulses(after_next_step(t), (COMPLETE_COUNTDOWN_START + 1) as nat).phase == Phase::Done,
{
    let t1 = after_next_step(t);
    lemma_countdown(t1, COMPLETE_COUNTDOWN_START as nat);
    lemma_pulses_split(t1, COMPLETE_COUNTDOWN_START as nat, 1);
    lemma_one_pulse(pulses(t1, COMPLETE_COUNTDOWN_START as nat));
}

/// One pulse.
proof fn lemma_one_pulse(t: TourView)
    ensures
        pulses(t, 1) == after_pulse(t),
{
    assert(pulses(after_pulse(t), 0) == after_pulse(t));
}

/// `a + b` pulses are `a` pulses followed by `b` pulses.
proof fn lemma_pulses_split(t: TourView, a: nat, b: nat)
    ensures
        pulses(t, a + b) == pulses(pulses(t, a), b),
    decreases a,
{
    if a > 0 {
        lemma_pulses_split(after_pulse(t), (a - 1) as nat, b);
    }
}

/// The completion card stays `k` pulses while its tick is below `DONE_TICKS`.
proof fn lemma_done_ticks(t: TourView, k: nat)
    requires
        t.phase == Phase::Done,
        t.done_tick + k <= DONE_TICKS,
    ensures
        pulses(t, k).phase == Phase::Done,
        pulses(t, k).done_tick == t.done_tick + k,
    decreases k,
{
    if k > 0 {
        lemma_done_ticks(after_pulse(t), (k - 1) as nat);
    }
}

/// The completion card dismisses itself: it is still shown after
/// `DONE_TICKS` pulses (about 5 s) and hidden after one more.
pub proof fn law_done_dismisses(t: TourView)
    ensures
        pulses(after_show_completion(t), DONE_TICKS as nat).phase == Phase::Done,
        pulses(after_show_completion(t), (DONE_TICKS + 1) as nat).phase == Phase::Hidden,
{
    let t1 = after_show_completion(t);
    lemma_done_ticks(t1, DONE_TICKS as nat);
    lemma_pulses_split(t1, DONE_TICKS as nat, 1);
    lemma_one_pulse(pulses(t1, DONE_TICKS as nat));
}

/// While typing, the cursor is visible in the first ten pulses of every
/// twenty after the prompt opens.
pub proof fn law_cursor_blinks(t: TourView, n: nat)
    requires
        n >= 1,
        n <= u32::MAX,
    ensures
        pulses(after_to_input(t), n).phase == Phase::Input,
        pulses(after_to_input(t), n).cursor_tick == n,
        pulses(after_to_input(t), n).cursor_on == (((n - 1) / 10) % 2 == 0),
    decreases n,
{
    let t0 = after_to_input(t);
    if n == 1 {
        lemma_one_pulse(t0);
    } else {
        law_cursor_blinks(t, (n - 1) as nat);
        lemma_pulses_split(t0, (n - 1) as nat, 1);
        let p = pulses(t0, (n - 1) as nat);
        lemma_one_pulse(p);
    }
}

/// The hint pill's text for an action.
pub open spec fn hint_text(action: Seq<char>) -> Seq<char> {
    if action == "Click"@ {
        "👆  Click here"@
    } else if action == "Double-click"@ {
        "👆  Double-click here"@
    } else if action == "Right-click"@ {
        "🖱  Right-click here"@
    } else if action == "Type"@ {
        "⌨  Type here"@
    } else if action == "Scroll"@ {
        "↕  Scroll here"@
    } else if action == "Hover"@ {
        "👀  Hover here"@
    } else {
        "↗  Do this"@
    }
}

/// The step card's heading, given the action already in upper case.
pub open spec fn step_heading(step_num: usize, upper_action: Seq<char>) -> Seq<char> {
    "Step "@ + decimal(step_num as nat) + "  ·  "@ + upper_action
}

/// The step card's button title.
pub open spec fn step_button(is_final: bool) -> Seq<char> {
    if is_final {
        "Done  ✓"@
    } else {
        "I did it  →"@
    }
}

/// The texts of a step card and its hint pill.
pub struct StepCard {
    pub heading: String,
    pub button: String,
    pub hint: String,
}

/// The six action words are different texts.
proof fn lemma_action_words_differ()
    ensures
        "Click"@ != "Double-click"@,
        "Click"@ != "Right-click"@,
        "Click"@ != "Type"@,
        "Click"@ != "Scroll"@,
        "Click"@ != "Hover"@,
        "Double-click"@ != "Right-click"@,
        "Double-click"@ != "Type"@,
        "Double-click"@ != "Scroll"@,
        "Double-click"@ != "Hover"@,
        "Right-click"@ != "Type"@,
        "Right-click"@ != "Scroll"@,
        "Right-click"@ != "Hover"@,
        "Type"@ != "Scroll"@,
        "Type"@ != "Hover"@,
        "Scroll"@ != "Hover"@,
{
    reveal_strlit("Click");
    reveal_strlit("Double-click");
    reveal_strlit("Right-click");
    reveal_strlit("Type");
    reveal_strlit("Scroll");
    reveal_strlit("Hover");
    assert("Click"@[0] != "Double-click"@[0]);
    assert("Click"@[0] != "Right-click"@[0]);
    assert("Click"@[0] != "Type"@[0]);
    assert("Click"@[0] != "Scroll"@[0]);
    assert("Click"@[0] != "Hover"@[0]);
    assert("Double-click"@[0] != "Right-click"@[0]);
    assert("Double-click"@[0] != "Type"@[0]);
    assert("Double-click"@[0] != "Scroll"@[0]);
    assert("Double-click"@[0] != "Hover"@[0]);
    assert("Right-click"@[0] != "Type"@[0]);
    assert("Right-click"@[0] != "Scroll"@[0]);
    assert("Right-click"@[0] != "Hover"@[0]);
    assert("Type"@[0] != "Scroll"@[0]);
    assert("Type"@[0] != "Hover"@[0]);
    assert("Scroll"@[0] != "Hover"@[0]);
}

/// Computes `hint_text`.
pub fn hint_for(action: &str) -> (s: String)
    ensures
        s@ == hint_text(action@),
        action@ == "Click"@ ==> s@ == "👆  Click here"@,
        action@ == "Double-click"@ ==> s@ == "👆  Double-click here"@,
        action@ == "Right-click"@ ==> s@ == "🖱  Right-click here"@,
        action@ == "Type"@ ==> s@ == "⌨  Type here"@,
        action@ == "Scroll"@ ==> s@ == "↕  Scroll here"@,
        action@ == "Hover"@ ==> s@ == "👀  Hover here"@,
        action@ != "Click"@ && action@ != "Double-click"@ && action@ != "Right-click"@ && action@
            != "Type"@ && action@ != "Scroll"@ && action@ != "Hover"@ ==> s@ == "↗  Do this"@,
{
    proof {
        lemma_action_words_differ();
    }
    let t = if str_eq(action, "Click") {
        "👆  Click here"
    } else if str_eq(action, "Double-click") {
        "👆  Double-click here"
    } else if str_eq(action, "Right-click") {
        "🖱  Right-click here"
    } else if str_eq(action, "Type") {
        "⌨  Type here"
    } else if str_eq(action, "Scroll") {
        "↕  Scroll here"
    } else if str_eq(action, "Hover") {
        "👀  Hover here"
    } else {
        "↗  Do this"
    };
    t.to_owned()
}

/// Computes `step_heading` from the upper-cased action.
pub fn heading_for(step_num: usize, upper_action: &str) -> (s: String)
    ensures
        s@ == step_heading(step_num, upper_action@),
{
    let mut s = String::new();
    push_str(&mut s, "Step ");
    let d = decimal_chars(step_num as u64);
    push_chars(&mut s, d.as_slice());
    push_str(&mut s, "  ·  ");
    push_str(&mut s, upper_action);
    assert(s@ =~= step_heading(step_num, upper_action@));
    s
}

/// The texts shown for a step: heading with the upper-cased action, button
/// title, and hint.
pub fn step_card(step_num: usize, action: &str, is_final: bool) -> (c: StepCard)
    ensures
        c.heading@ == step_heading(step_num, unicode_uppercase(action@)),
        c.button@ == step_button(is_final),
        c.hint@ == hint_text(action@),
        c.heading@ == "Step "@ + decimal(step_num as nat) + "  ·  "@ + unicode_uppercase(action@),
        is_final ==> c.button@ == "Done  ✓"@,
        !is_final ==> c.button@ == "I did it  →"@,
{
    let upper = to_uppercase(action);
    let heading = heading_for(step_num, upper.as_str());
    let button = if is_final {
        "Done  ✓".to_owned()
    } else {
        "I did it  →".to_owned()
    };
    StepCard { heading, button, hint: hint_for(action) }
}

} // verus!
