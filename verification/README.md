# enpitsu

The logic of a Japanese input method (romaji to hiragana, Windows TSF text
service), written in Verus with its behaviour stated in `requires` / `ensures`
contracts and proved.

- `src/` — the verified library (see the module list in `src/lib.rs`). Each public
  function states what it returns; the laws that tie functions together are the
  public `lemma_*` proof functions of each module.
- `tests/` — tests of the library on concrete values.
- `app/` — the unverified layer that reads environment variables and the file
  system and hands plain values to the library.

The romaji conversion table is not part of this crate: `InputState::feed_char`
takes the conversion as an argument.
