# perspective

A tool that finds the camera pose of a photograph from vanishing lines the
user places on it, and exports the pose with the photograph as an fSpy
project for Blender.

## Layout

- `src/` — the verified library (Verus):
  - `fspy_format`, `encoder`, `decoder`: the fSpy container (a 16 byte header,
    the scene settings as JSON bytes, the image), its writer, its reader as a
    state machine, and the proof that the reader gives back what the writer
    wrote.
  - `buffer`: the byte buffer of `tokio_util` that files are written to and
    read from, behind trusted wrappers.
  - `model`: editing modes and axes, the decoder's reading stage, the unit
    settings.
  - `keys`, `pose_canvas`, `draw_canvas`, `twist_canvas`, `points`, `hits`:
    how the canvases answer keys and the mouse, with the geometry left to the
    caller.
  - `window`: which work each message of the application window sets off,
    and in which order, from what the window holds; how the window opens and
    what its context menu offers.
  - `context_menu`: when the context menu opens and closes.
  - `editor`: the text fields of a point's coordinates.
  - `matching`: symmetric and ratio-test matching of binary descriptors, over
    the linear k-NN search of the `space` crate.
- `tests/` — tests of the library on concrete values.
- `app/` — the command line program: it keeps the window's images, lines and
  poses and carries out the work the library's window decisions ask for
  (reading the saved points, the floating-point pose computation, JSON,
  files), and it holds the `tokio_util` codec built on the library's encoder
  and decoder.
