# ani-dl

A command line tool that finds an anime title on Shikimori, lists its releases on the
Kodik engine, and plays an episode in mpv or Cine or saves episodes with ffmpeg.

- `src/` is the library, verified with Verus: parsing and printing numbers, paths with
  `std::path`'s Unix meaning, episode numbering and ordering, file names, playlist
  reading, ffmpeg's command line and progress output, the retry machine of downloads,
  settings and their command line overrides, messages of every error.
  `src/standalone/` holds the same for the single-program flavour of the tool.
- `app/` is the program around it: prompts, HTTP requests, settings files, child
  processes and progress bars.
- `tests/` runs the library on concrete values, and compares its path, number and line
  handling with the standard library's.
