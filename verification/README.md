# Pointer

Pointer is a floating tour guide for macOS. `⌘⇧P` shows a dot at the cursor;
clicking it opens a prompt, and the goal typed there is guided step by step:
a screenshot goes to a vision model, which answers with the next element to
click, type into or scroll, and the dot flies there with a card explaining
the step.

## Layout

- `src/` — the library, verified with Verus:
  - `text.rs` — string operations with specifications (search, trimming,
    splitting, lines, decimal numbers), the base of everything else.
  - `tour.rs` — the overlay's state machine (hidden → dot → prompt → loading →
    step → done), the 50 ms timer pulse, and the texts of the step and
    completion cards.
  - `events.rs` — prompt key handling and the event tap's decision table.
  - `prompt.rs` — step history, loop and step-cap hints, the user messages,
    reply screening and the three-attempt retry plan.
  - `uitars.rs` — reading `Thought:` / `Action:` replies of UI-TARS models.
  - `agent.rs` — model detection, the screenshot payload (Base64 through the
    `base64` crate), browser URLs, and the connection test's verdicts.
  - `config.rs`, `keys.rs` — provider settings and API-key cleaning.
  - `memory.rs` — a two-tier step memory (recent steps verbatim, older ones
    summarised, repeated mistakes listed once).
  - `logger.rs` — UTC calendar arithmetic and log-line formatting.
- `tests/` — tests of the library on concrete values.
- `app/` — the AppKit program around the library: windows and panels, the
  CoreGraphics event tap, the timer, `screencapture` / `sips` / `curl` /
  `osascript`, the JSON files and everything in screen coordinates.

Every state change of the overlay is made on the library's `Tour`; the
program then shows, hides and places windows accordingly. Its laws (what a
toggle undoes, when keys are swallowed, how many requests a step may take, how
long the completion card stays, that a key pasted several times is stored
once, …) are public proof functions next to the code they speak of.
