# taiga

A client library and command-line program for the Taiga REST API, written in
Verus: the library's behaviour is stated in `requires` / `ensures` contracts
and proved.

- `src/` is the verified library. It describes every API call as a request
  value, reads answers and errors, normalizes API URLs, plans each CLI
  command as a sequence of calls, keeps a session alive as a state machine
  (refresh, silent re-login), reads JWT expiry claims, keeps the password
  store's entries, plans attachment uploads, edits and downloads (multipart
  forms, and media fetched without the session's bearer), and decides a
  self-update: current or newer, which assets to fetch, and the binary of an
  archive that passed its checksum. Calls into
  `url`, `serde_json`, `semver`, `sha2`, `zip`, `tar`, `flate2` and `reqwest`
  (status reasons) go through small trusted wrappers whose contracts are
  documented where they are declared. Public proof functions state the
  library's laws (for example: a run saves only tokens obtained with the
  saved refresh token or a saved or typed password; nothing is deleted
  without `--yes`; a session ends within seven steps).
- `tests/` runs the library on concrete values.
- `app/` is the program around it: argument parsing with `clap`, the
  configuration file, the keychain or file password store, the HTTP calls
  with `reqwest` on `tokio`, terminal prompts, and printing.
