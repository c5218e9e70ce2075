# nova_loader

The logic of a program-rental loader, verified with Verus.

- `src/config.rs` — the configured host and the program API base URL.
- `src/api.rs` — the calls to the API and how an answer becomes a result or an `ApiError`.
- `src/hwid.rs` — the stable hardware identifier and the parsers for the system's machine identifiers.
- `src/program_profiles.rs` — the catalogue of known programs and how a product name selects one.
- `src/session.rs` — the login window's state machine.
- `src/loader.rs`, `src/loader_text.rs` — the game-library window's state machine and display texts.
- `src/text.rs` — character-level string operations with their specifications.

`app/` holds the two front ends (egui by default, imgui with `--imgui`), HTTP, and
reading the machine identifier from the system.
