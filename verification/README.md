# lcx

Core of `lcx`, a LeetCode client for the terminal, as a verified library.

- `src/` — the library, with contracts and proofs:
  - `text` — character-level string helpers (trimming, decimal text, joins);
  - `ansi` — SGR colouring through `owo_colors` and its removal (`strip_ansi`);
  - `help` — splitting key hints into `<KEY>` tokens and text;
  - `markup` — HTML problem statements laid out by `html2text` and styled;
  - `models`, `graphql` — problems, judge verdicts, profile figures, API shapes;
  - `render` — the text of problem views and judge verdicts;
  - `commands` — decisions and messages of the subcommands (test input,
    languages, judge polling, paging through the problem list);
  - `home` — the main screen's state machine.
- `tests/` — tests on concrete values.
- `app/` — the terminal front end: JSON shapes with `serde`, drawing with
  `ratatui` and `comfy_table`, and the loops that perform the I/O that the
  library's decisions ask for.
