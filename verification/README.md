# liteparse_ruby

The verified core of the Ruby bindings for LiteParse, a document parser that
extracts text with its layout.

- `src/` is checked by Verus:
  - `formats`: the output format and image mode named by a keyword, and the
    name under which a configuration reports its format;
  - `headers`: gathering OCR-server headers into one per name, last value
    winning, as a map does;
  - `config`: the parser settings that the bindings start from and the
    effect of each constructor keyword on them;
  - `report`: the read-only configuration that a parser reports;
  - `records`: text items, pages, images, screenshots and parse results,
    page lookup by number and the self-descriptions of the records;
  - `text`: decimal numerals;
  - `cli`: the command line, which the gem never runs.
- `app/` is the Ruby extension around it: keyword reading, the Ruby classes,
  the tokio runtime that drives the parser crate, the float conversions, and
  the phrase search of the parser crate.

Single-precision values that the parser measures (coordinates, sizes,
resolution, confidence) travel through the library as their IEEE-754 bit
patterns; only `app/` interprets them.
