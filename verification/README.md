# bookkar

A Tatkal train-booking assistant. The library in `src/` holds its logic, each
function with a contract proved by Verus, except thirteen small trusted
wrappers (marked `#[verifier::external_body]`) that call std, chrono,
serde_json, uuid and jsonwebtoken and whose contracts are stated from those
libraries' documentation and source: the clock readings, the random token id,
date parsing, case mapping, JSON member lookup, UUID parsing, HS256 token
signing and decoding, and pushing a character onto a string.

- `booking`, `passenger`, `date`: classes, quotas, payment methods, booking
  states, passengers and journey dates, with their site codes and labels.
- `config`: the saved journey configuration and its conversion into a booking
  configuration (case-insensitive codes, two date formats, errors in a fixed
  order), and the menu choices of the interactive setup.
- `license`: licence-token claims, the server's token records, validation
  answers, consumption, and the client's decisions after the server replies.
- `jwt`: issuing signed licence tokens, reading their claims back (with the
  signature checked by the server, without it by the client), and the expiry
  check.
- `timer`: when the Tatkal window opens for a class, readings of the local
  clock and the time left until the opening, the countdown text, and the
  steps of the wait up to the opening instant.
- `scripts`, `selectors`, `automation`: the page scripts the browser runs and
  what their reports mean for the next step, including when a wait has run
  past its limit.
- `bot`: the licence bot's replies.
- `words`: word frequencies of a text, kept in a vector in order of first
  occurrence (a vector's contents can be stated exactly; a map keyed by
  strings would give the proofs nothing to work with).
- `text`: decimal rendering and character-level string helpers.

`app/` holds the programs around the library (booking client, licence server
with its Telegram bot, a DOM inspection run, a word-count tool): terminal,
browser, network, database and file I/O, and the serde forms of the library's
records for the wire, the database and the configuration file. `tests/`
exercises the library on concrete values.

`takecell` is held below 0.1.2 in `Cargo.toml`: it is not used directly, but
teloxide-core pulls it in, and 0.1.2 needs rustc 1.96 while the crate is
built with rustc 1.95.
