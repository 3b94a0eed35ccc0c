# iclass_tui

Terminal client of the iClass classroom service, split in two:

- `src/` is the verified library: the screen state and its reducer (a
  transition function from state and action to state and requested outside
  work), the role-based access rules (which screens, boxes and shortcuts each
  role gets, and which box is drawn), the key bindings, the class and user
  forms with their teacher and student pickers (how keys edit them, what saving
  them asks for, and what their boxes show), what the content pane shows, the
  reading of the role claim from the access token,
  the request paths, headers and form fields, and the text the screens compute
  (masked passwords, padded columns, scroll hints, short names, report totals).
  Laws that span several actions are proved in `src/laws.rs`.
- `app/` is the program around it: the terminal loop (crossterm, ratatui), the
  HTTP calls (reqwest), the SQLite cache (sqlx) and the serde copies of the
  records.
