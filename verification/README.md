# ninjaedit_tui

The decisions behind the terminal interface of an editor for Ninja and CMake
projects, written in Verus: which commands apply where, how keys and the mouse
are routed, how panes share the screen, what the status bar, the empty page,
the changes page and the build page show, and how tabs, folds, scrolls and
confirmations behave. Each function states what it returns in its contract, and
the properties that span several calls stand as proof functions beside them.

- `src/` is the verified library, one module per concern (`command`,
  `context_menu`, `key_route`, `mouse_route`, `screen`, `status_bar`,
  `changes_view`, `build_view`, `tabs`, ...).
- `tests/` runs the library on concrete values.
- `app/` holds what stays outside the proofs: converting terminal events,
  drawing with ratatui, and the pane shares kept as fractions.

Text widths come from ratatui, the system clipboard from arboard, and the clock
from the standard library; each of these calls sits behind a small trusted
function whose contract says what the library relies on.
