# er_loading_portrait_core

The decision logic of the loading-screen character portrait and its stats panel, verified with
Verus: which save slot the portrait targets, whether a published head belongs to the character
that loaded, the bridge's admission rule for captured frames, the per-window pipeline state and
its reset, the consume gates that decide what is published, the compositor that draws the head,
the native loading gauge, the equipment oracle and the row-header label.

- `src/` is the verified library. Every public function states its result in `ensures`; laws that
  span several calls are public proof functions (`lemma_*`).
- `app/` is the host side: the callback seam the embedding DLL installs, and the edges that ask
  the display or read a file before handing plain values to the library.
- `tests/` runs the library on concrete values.
