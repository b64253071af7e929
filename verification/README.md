# sweettest_utils

Helpers for Holochain "sweettest" scenarios, split in two:

- `src/` — the verified library (Verus): entry-definition names and their
  registry (`entry_defs`), one-line renderings of source-chain elements and
  the text of a chain dump (`chain`), the retry discipline for zome calls
  (`retry`), the buffer of received app signals (`signals`), and the text
  helpers they rest on, including terminal colouring through `colored`
  (`text`).
- `app/` — the async plumbing around conductors and cells (setup, zome calls,
  signal listening, printing), which hands plain values to the library.
