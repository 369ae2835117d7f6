# klafs_api

Control of Klafs saunas through their cloud API, with the decisions of the
client and of the `sauna` command line verified by Verus.

## Layout

- `src/` — the verified library:
  - `text.rs`: strings as sequences of characters (decimal text, search,
    cutting and joining, ordering), and the wrappers of `str` functions;
  - `models.rs`, `error.rs`: sauna modes, status codes, status and request
    bodies, errors and their messages;
  - `validate.rs`: sauna IDs, PINs and value ranges;
  - `config.rs`: client and debug configuration, timing;
  - `html.rs`, `json.rs`: what the client reads in pages (through `scraper`
    and `regex-lite`) and in JSON (through `serde_json`), and the redaction of
    secrets in JSON;
  - `client.rs`: each API operation as a `Flow` of requests, with the
    judgement of every reply;
  - `debug.rs`: the traffic log, its text form and the redaction of headers
    and bodies;
  - `profiles.rs`: saved profiles, a map kept sorted by name;
  - `cli.rs`: what each command of the command line asks for and reports.
- `app/` — the program: HTTP with `reqwest`, files, keyring, argument parsing
  and coloured output; it runs the library's flows and prints its reports.
- `tests/` — tests of the library.
