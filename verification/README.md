# cacophony_io

The input and state logic of Cacophony, a minimalist, keyboard-driven MIDI sequencer, as a
library verified with Verus.

Each frame, `io::IO::update` applies user input to the app's `State`: the focused panel (music,
tracks, piano roll, open-file, export settings, quit, links) decides what changes, changes are
recorded as snapshots on a bounded undo stack, and the function returns the effects for the
host to perform: commands for the synthesizer, files to list, read or write, speech, and so on.
What is spoken is described as text keys, tooltips and values (`speech`); rendering it into words
is left to the host.

- `src/` the verified library.
- `tests/` tests of the library.
- `app/` what the library leaves to its host and can be done with the crates at hand: the
  config file (`rust-ini`), save files (`serde`, `serde_json`), the folders that the open-file
  panel lists and moves through, reading MIDI files from disk and
  the floating-point tempo of an imported file (`midly`; the file's events are parsed and imported
  in `src/`), and the web browser (`webbrowser`).
