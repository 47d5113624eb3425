# shamrock_it

The verified core of the ShamRock.it IT-ticketing and user-backup desktop suite.

- `src/` is the library, checked by Verus: text handling (`text`), base64 and
  AES-256-GCM through the `base64` and `aes-gcm` crates (`codec`, `cipher`),
  the encrypted credentials asset (`crypto`), the ticket records
  (`structures`), ticket e-mail and NinjaOne ticket building (`mailer`,
  `ninja`), the local ticket store's decisions (`db`), backup path planning
  (`backup`) and user/computer names (`info`).
- `app/` is the Tauri program around it: windows and tray, HTTP, SMTP,
  SQLite, file walking, copying and zipping.
- `tests/` runs the library with the real outside crates.
