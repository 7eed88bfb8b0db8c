# Grove

Grove lists the Git worktrees you have in flight and the tmux session living in
each one, and opens them in your own terminal. This crate holds what Grove
decides, as a library verified with Verus; `app/` holds what it does: the window,
the sockets, the threads and the calls to git and tmux.

## Layout

- `src/app` — the window's state: which message means what, which task a click or
  a keystroke is, what the rows show.
- `src/ui` — the lists, rows, dialogs and settings as values: what is offered,
  what it says, and what a press on it comes to.
- `src/service` — the persistent service: which method a request asks for, which
  requests are refused, how a retry is answered, who is told of an event.
- `src/notify.rs`, `src/toggle.rs`, `src/control.rs`, `src/query.rs`,
  `src/hooks.rs`, `src/cli.rs` — the command lines.
- `src/status_watch.rs` — how often the sessions are looked at, and what a look
  comes to.
- `src/model.rs`, `src/state.rs`, `src/notices.rs`, `src/workers.rs`,
  `src/protocol.rs` — the values that travel between them.
- `src/text.rs`, `src/table.rs`, `src/json.rs` — text, keyed tables, and JSON
  values as the `serde_json` crate holds them.

Every public function says in its contract what it returns or changes. What holds
of several of them together stands as a public proof function: that refreshing
removes nothing, that a removal takes two clicks and is never a bundle, that
attention is not answered by a report, that a retry is not carried out twice, that
a slow subscriber costs only itself.

The items that are believed rather than proved are in `src/json.rs`,
`src/text.rs`, `src/control.rs` and `src/ui/backdrop.rs`; each names the function
it speaks of.
