# zbd_discord_bot

A Discord bot that sells game-server commands for Bitcoin Lightning payments
(ZEBEDEE invoices, Battlemetrics RCON), with its decisions verified in Verus.

- `src/` is the verified library:
  - `decimal`: the `i32` text that amounts are parsed from and charges are written in.
  - `text`: trimming and comparing strings.
  - `json`: JSON string literals, written by `serde_json`.
  - `qr`: QR code images, drawn by `qrcode_generator`.
  - `product`: what is sold (blood, unmuting), its charge, and the in-game command and replies that deliver it.
  - `battlemetrics`: the RCON request that runs a command on the game server.
  - `commands`: the invoice message and the steps after each answer of the payment service.
- `app/` is the bot itself: Discord (poise), ZEBEDEE and HTTP calls. It reads the
  secrets `DISCORD_TOKEN`, `ZBD_TOKEN`, `SERVER_ID` and `BM_TOKEN` from the environment.
- `tests/` runs the library on concrete values.
