# taski-tui

A keyboard-driven terminal browser for the tasks of an Obsidian vault. It reads a local index that a
daemon keeps, shows the tasks in groups with the note around the selected one, and hands every write
to the daemon's queue. It never touches a note itself.

The state of the browser, what every key makes of it and what the screen shows are verified with
Verus. `src/` is that library; `app/` is the program around it: the terminal, the index, the
configuration and the launcher.

## Layout of `src/`

- `text`, `paths`, `order`: strings as sequences of characters, note paths and links, stable sorting.
- `task`, `actions`: the records of the index, and the requests the browser puts into the queue.
- `theme`, `spans`, `layout`: colours and preferences, styled text, rectangles.
- `grouping`, `listing`: filters and grouping axes, and the rows they make of the tasks.
- `model`: the state as a mathematical value, `AppView`, with a spec function for every gesture.
- `app`, `prompts`, `moving`, `writes`, `sync`, `keys`: the state itself. Each method's contract says
  that the view after the call is the model's function of the view before it.
- `rows`, `context`, `help`, `screen`: what is drawn, and where.
- `session`, `launch`: what a session starts with, and whether a daemon may start.
- `laws`, `invariants`, `view_laws`, `move_laws`: what holds of the whole, proved of the model.

## What is trusted

- `String::push`, `String::pop`, `str::to_lowercase` and `char::to_lowercase` of the standard library,
  in `text`.
- `Layout::split` and `Block::inner` of ratatui, in `layout`.
