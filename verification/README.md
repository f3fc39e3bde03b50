# kokoroxide

Kokoro text-to-speech built around a library verified with Verus.

- `src/` is the verified library:
  - `wav.rs` frames the speech with silence and writes it as a 16-bit mono
    PCM WAV file through `hound`; its laws state the file length, the header
    fields, and that every sample reads back from the data chunk.
  - `config.rs` is the engine configuration and its builder methods.
  - `vocab.rs` parses a tokenizer file with `serde_json` and reads its token
    vocabulary.
  - `text.rs` trims input lines, writes numbers in decimal and makes file
    names; `session.rs` decides what each typed line of an interactive
    session does; `demo.rs` describes the demo runs.
- `app/` is the program around it: ONNX Runtime inference, file and console
  I/O, and the floating-point conversion of samples.
- `tests/` runs the library on concrete values.
