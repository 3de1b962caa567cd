# smash_shell

A terminal UI toolkit (buttons, dialogs, message boxes, multi-line text
boxes, an embedded terminal, text selection, a virtual list, focus
navigation) and a component gallery built on it, with the toolkit's logic
verified by Verus.

## Layout

- `src/` — the verified library. Every component is a plain state value with
  a view; each operation states, over that view, what it does to the state
  and what it answers. Laws that relate several operations are public proof
  functions named `law_*`.
  - `events`, `geometry`, `layout`, `text` — toolkit events, rectangles,
    ratatui layout splitting, character helpers.
  - `reactive` — focus, interaction and selection state, and the focus
    navigator (tab order and spatial movement).
  - `button`, `dialog`, `message`, `textbox`, `terminal`, `text_selection`,
    `virtual_list`, `controls` — the components.
  - `syntax`, `syntax_select`, `heuristics`, `content_detection`,
    `highlight` — highlight requests, the background highlighter's
    scheduling, linguist's content heuristics, the choice of a syntax (pinned
    language, linguist detection, file extensions, content heuristics, first
    line) and the styles of the highlighted lines.
  - `cookbook`, `cookbook_state`, `theme` — the gallery's layouts, its state
    and event handling, and theme presets.
- `app/` — the program: terminal setup and the frame loop, drawing with
  ratatui, the pseudo-terminal, the clipboard, colour schemes and the
  thread that runs the highlighting.
- `tests/` — tests of the library.
