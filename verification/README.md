# the-honkers-railway-launcher: window logic

The main window and the component version rows of the launcher, as a Verus
library: the models, how they answer their inputs, what the window shows for a
model, and the startup sequence that runs when the window opens.

- `src/launcher.rs` – the launcher state, its style, and the main button's work.
- `src/main_window.rs` – the window's model, `App::update` and the follow-ups of
  the work it asks for (loading the launcher state, a predownload), toasts.
- `src/layout.rs` – sizes, visibility, labels, classes and tooltips.
- `src/startup.rs` – the startup sequence as a state machine.
- `src/changes.rs` – the description of a components index update.
- `src/version.rs` – a component version row.

`app/` holds the widgets and threads (relm4, GTK, libadwaita), the calls into
the game SDK and the desktop, and runs the effects that the library returns.
