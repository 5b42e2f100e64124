# cathode

A terminal front end for browsing video feeds (the followed channels, a subscriptions export,
saved searches) and playing them with mpv.

- `src/` is the library, written in Verus: text handling (`text`), videos and the yt-dlp listing
  (`api`), the configuration (`config`), the application state and its key handling (`app`),
  feed assembly (`feed`), the watch history (`history`), what the screen shows (`view`) and
  hiding the terminal while a video plays (`term`). Every function carries a contract that
  Verus proves; the calls into `std` and outside crates that it cannot read stand behind small
  wrappers whose contracts stand in their `ensures`, each described in its doc comment.
- `app/` is the program around it: terminal drawing with ratatui, key events from crossterm,
  running yt-dlp, mpv and curl, the configuration and history files, and the floating-point
  scoring of the curated feed.
- `tests/` exercises the library.
