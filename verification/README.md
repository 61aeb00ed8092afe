# lisca

The verified core of Lisca, a desktop reader that speaks selected text:
press a global hotkey, the selection is queued, synthesized with a Piper or
Kokoro voice, and played back.

`src/` is a Verus library.  Each function states its behaviour in
`requires`/`ensures` over mathematical models (`Seq`, `Map`, views), and the
public `law_*` proof functions state properties that span several calls.

- `queue` – the playback queue (text messages and speech items, unique
  increasing ids, reordering, status changes) and its settings.
- `player`, `playback` – the decisions of the speech player on each event,
  and the pause/stop flags of a playback loop.
- `transcriber`, `language` – choosing the language (with `whatlang`) and the
  voice of a text, and applying the outcome of a synthesis to the queue.
- `phonemes` – phoneme-id sequences for Piper voices (eSpeak NG IPA, Unicode
  NFD) and the Kokoro tokenizer table.
- `catalog` – the voices offered, installation plans and checksums.
- `pool` – the least-recently-used cache of loaded models.
- `hotkey`, `shortcut_keys` – parsing and printing keyboard shortcuts.
- `commands`, `errors`, `overlay`, `clipboard`, `text` – messages for the
  user interface, error texts, window decisions and string helpers.

`app/` is the Tauri application around the library: windows, tray, actors,
audio output, model inference, downloads and files.  `tests/` exercise the
library with the real outside crates linked.
