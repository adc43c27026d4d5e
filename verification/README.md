# alacritree

A terminal that keeps its sessions by git worktree, and the part of it that
decides things, verified with Verus.

`src/` is the library. Every function in it carries a contract that Verus
proves; the few calls it makes into other crates stand behind small wrappers
whose contracts are written beside them.

- `text`, `side`, `paths`, `path_style`, `json`: the ground the rest stands on:
  texts, the machine or distro a server runs on, paths, and JSON documents.
- `herdr`: watching a herdr server: the requests sent to its binary, the events
  it streams, the listing kept of its panes, the view shared with it, and what
  follows from all of these.
- `multiplexer`: what a pane is to every multiplexer, which panes get a row, and
  the set of multiplexers as one.
- `ipc`, `mcp`: what a client may ask of a running instance, how it is spelled
  on the wire, who answers it, and the same over the Model Context Protocol.
- `keys`, `input`, `mouse`, `paste`, `ime`, `modal_gate`, `panel_filter`: what a
  key, a click, a paste or a composition comes to.
- `grid_instances`, `grid_gl`, `gl_frame`, `gl_build`: the records a screen is
  drawn from, what of them is sent to the graphics card, and the steps of
  drawing a frame.
- `jobs`, `in_flight`, `pending_spawn`: the queues of the worker pool and the
  work that clients wait on.
- `notify`, `logging`, `paint_phases`, `icon`: notifications, the log, timings
  and the window's icon.

Proof functions that are public state what holds of several functions together,
each in the sentence above it.

`tests/` runs the library on concrete values. `app/` is the process around it:
threads, child processes, sockets, the graphics context and the command line.

In `herdr` and `multiplexer` a moment, and a delay counted from one, is in
nanoseconds on one clock. Every other wait is in milliseconds.
