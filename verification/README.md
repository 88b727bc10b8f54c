# rustbasic_activitylog

Activity logging for RustBasic applications, with its logic proved in Verus.

- `src/` — the verified library:
  - `service.rs`: the `ActivityLogger` builder, the row it stores
    (`ActivityRecord`), and the values bound to the insert statement;
  - `middleware.rs`: the logger and description an HTTP request leaves,
    and the `HasDatabase` trait;
  - `scaffold.rs`: the migration's name, path and source, the model's
    source, the edits that register both in the project's `mod.rs` files,
    and what the `install` command and a project's build write;
  - `text.rs`: character sequences and first-occurrence search;
  - `json.rs`, `clock.rs`: serde_json values, and the local clock and the
    texts it writes for a date and time, as rustbasic_core provides them.
- `app/` — what talks to the outside world: the database write
  (`LogActivity::log`), the async middleware, the model entity, the
  `install` command (`cli::run`) and `build_scaffold::scaffold_at_build` for
  a project's `build.rs`.
- `tests/` — tests of the library on concrete values.
