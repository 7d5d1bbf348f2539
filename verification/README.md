# zdownload

The verified core of a small video download front end for `yt-dlp`.

- `src/` is the library, proved with Verus: text operations (`text`), the
  progress-aware download log (`log`), the address check (`url_check`, which
  calls the `url` crate's parser), the user-facing texts (`messages`), the
  engine's command line (`command`), the download session rules (`session`)
  and the rules of the desktop window variant (`window`).
- `app/` is a console front end that reads the environment, fetches and runs
  the engine, and hands every decision to the library.
- `tests/` runs the library on concrete values.
