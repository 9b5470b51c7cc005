# astrid

The core rules of the Astrid agent runtime, written in Verus and proved
against their specifications.

## Layout

- `src/` — the verified library. Each module states its behaviour in
  `requires`/`ensures` contracts over mathematical models (`Seq`, `Map`,
  views of the data types) and proves it:
  - `capability_grammar`, `principal`, `env_policy`, `groups` — capability
    strings, principal ids, the environment a spawned process may see, and
    the group configuration with its built-in groups.
  - `toml_value`, `merge`, `restriction_laws`, `layering` — layered
    configuration: parsing a configuration file, deep merging with source
    tracking, the defaults → system → user → workspace order, and the
    restrictions that keep a workspace layer from loosening security, with
    the proof that every restriction still holds once all of them have run.
  - `dirs`, `identity`, `user_identity`, `input`, `frontend`, `connector`,
    `error`, `http` — the directory layout, platform and user identities,
    message attribution, frontend and connector types, error messages, and
    which addresses outgoing connections may reach.
  - `input_buffer`, `idle_keys`, `approval_keys`, `command_palette`,
    `render_text`, `spinner`, `value_format`, `config_types` — the terminal
    UI's prompt editor, key handling, slash-command palette, text shaping
    and configuration sections; `input_line`, `nexus`, `activity`,
    `slash_commands`, `pending_actions`, `headless` and `onboarding_menu` —
    the prompt line, the conversation stream, the activity line, what the
    built-in slash commands do, what queued actions send and change, the decisions
    of a headless session, and the lines of the onboarding form.
- `tests/` — tests that run the compiled library.
- `app/` — the parts that touch the outside world (files, the environment,
  TOML text, name lookup), handing plain values to the library.

Outside crates are reached from `src/` only through a few trusted
functions, each documented with what its contract claims.
