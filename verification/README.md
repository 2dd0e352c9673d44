# takure

Takure is a DDR hook that submits scores to a Tachi instance after each song.
This crate holds its logic as a Verus-verified library; the DLL around it
lives in `app/`.

- `src/` — the verified library
  - `text.rs`: decimal rendering and parsing, NUL stripping, UTF-8 and
    UTF-16 decoding of the game's fixed-size fields.
  - `types/`: the game's save data (DDR A3 and DDR WORLD) and Tachi's import
    format, with the code tables (lamps, difficulties, play types, flares).
  - `handlers/scores.rs`: from a save to the import that is submitted —
    card whitelist, guest and game-over checks, choice of the stage,
    construction of the import.
  - `takure.rs`: decisions of the property hook (which node, which method,
    which saves count), whether the game software is supported, the current card.
  - `helpers.rs`: request timeout and authorization, property buffer and
    module file name decoding.
  - `endpoints.rs`: the Tachi endpoint addresses, joined with the `url` crate.
  - `sys.rs`: the property library's node types.
  - `lib.rs`: start-up banner, update check and set-up decisions.
- `app/` — the Windows DLL: settings file, logging, HTTP, detours and FFI.
- `tests/` — tests of the library.
