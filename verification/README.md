# puppis_core

The verified core of a Linux desktop manager for the Puppis S1 (P1411) USB
Wi-Fi adapter. It discovers and verifies the adapter, explains the state of
the USB link, host sharing, device role, radios and nearby clients, drives
guarded and recoverable radio and role changes, manages the application's own
NetworkManager sharing profile, keeps saved client labels, and prepares
privacy-redacted diagnostics.

Every function of the library is proved with Verus against a contract stated
over mathematical views of its types, except a few thin wrappers around the
standard library whose contracts are trusted: `text::ascii_lowercase`,
`text::lowercase`, `text::uppercase` and `text::trim` (`str`'s case mappings
and trimming; the full Unicode case mappings are named, not written out, as
`unicode_lowercase` and `unicode_uppercase`), `protocol::utf8_text`
(`str::from_utf8`), `environment::system_clock_seconds` (`SystemTime::now`,
nothing promised of its value), and the declaration of `std::path::PathBuf`
in `log.rs`.

## Layout

- `src/application.rs` — the application state machine: candidate selection,
  identity verification, host sharing, radio and role transactions with
  rollback and recovery, client evidence and saved clients.
- `src/environment.rs` — the model of the device, host and storage that the
  application drives; every outside change it makes is listed as an action.
- `src/driver.rs` — runs an operation step by step against the real host:
  the next action to carry out, and how the device's answers feed back.
- `src/protocol.rs` — request and response frames of the device protocol
  (CRC-32 checked) and the validation of decoded responses.
- `src/sharing.rs`, `src/tables.rs` — NetworkManager observations, profile
  settings, and the host's routing and neighbour tables.
- `src/evidence.rs`, `src/saved.rs`, `src/client_state.rs` — client evidence,
  saved-client labels and the saved-client file schema.
- `src/diagnostics.rs`, `src/log.rs` — redacted diagnostics and the bounded
  structured log.
- `src/usb.rs` — classification of USB network interfaces as candidates.
- `src/laws.rs` — properties that span operations, proved from the contracts.
- `app/` — the desktop shell: file, socket, sysfs and D-Bus access, JSON
  serialization, the Tauri commands, and the loop that carries out each
  action that the library asks for.
- `tests/` — scenario tests of the library.
