# omarchy_bible

An offline bilingual Bible reader (和合本 1919 神版 beside the King James Version), with
its core verified by Verus.

## Layout

- `src/` — the verified library
  - `text` — trimming, case folding, number parsing and printing, substring search
  - `catalog` — the 66-book canon, aliases, book lookup and reference parsing
  - `book_lookup` — the proof that every book is found by its OSIS id and abbreviation
  - `json` — a JSON tree, and parsing JSON text into it
  - `hebrew` — the MorphHB pack (decompressed, parsed, read), its words, part-of-speech labels
  - `translation` — translation lanes and single / compare view modes
  - `chapter` — verses, chapters, search hits
  - `search` — matching a verse and building a snippet
  - `bible` — the 66-book store: loading, chapter lookup, search, aligned chapters
  - `selection` — select mode: the tap rule, references, summaries, clipboard text
  - `settings` — settings, theme palettes, reading an Omarchy `colors.toml`
  - `reader` — the reading window's state and decisions (chapter turns, jumps, Esc,
    search debounce, book picker, Hebrew word panel)
  - `fonts` — choosing the font family for Chinese text
- `tests/` — tests of the library
- `app/` — the program: reads the data files and `settings.json`, detects the Omarchy
  theme, and drives the reader from the terminal

The data files (`cuv-kjv.json`, `genesis-1.json`, `he/morphhb-ot.json.gz`) are read from
`$OMARCHY_BIBLE_DATA`, else from `data/`.
