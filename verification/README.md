# terminal_core

The core of a small macOS terminal emulator, written in Verus. The functions
in `src/` carry contracts that Verus proves, except a few trusted functions
marked `external_body` that call std, `vte` or `base64`: Verus takes their
contracts as given (each says so in its doc comment).

- `parser`, `charset`: escape sequences (through the `vte` state machine) turned
  into terminal actions, with the DEC and national character sets.
- `grid`, `cell`, `style`, `cursor`, `state`: the screen, its history and the
  effect of each action; `terminal_buffer` wraps a terminal for a window.
- `input`, `mouse`, `paste`: what key presses, mouse events and pastes send to
  the program.
- `selection`, `composition`, `render`, `terminal_view`: selections and copied
  text, input-method composition, the palette and the cell layout of what a
  window draws, and the window's own state and decisions.
- `pty`, `smoke`: the small computations behind the pseudo-terminal and the
  scripted smoke runs.
- `laws`: properties that span several operations.

`app/` is the AppKit front end, the pseudo-terminal and the logging; it calls
the library for everything it decides.
