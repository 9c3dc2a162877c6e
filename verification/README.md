# PULSE

A one-button rhythm game: a ring shrinks towards the target ring and the
player taps when they meet. Built with Bevy; the browser build plays its
sounds through the Web Audio API.

- `src/` is the verified library (Verus): scoring and combos (`scoring`),
  the screen flow (`flow`), the combo display cues and HUD texts (`hud`),
  decimal text (`text`), the share link with its percent-encoding
  (`share`), how each sound effect plays (`sound`), when the browser
  backend may create and resume its audio context (`audio_gate`) and the
  WAVE encoding of the generated sounds (`wav`). The laws that span calls
  stand as proof functions next to the code they are about.
- `app/` is the Bevy program: windows, input, rendering, timing in floating
  point, sample synthesis and the two audio backends. It hands plain values
  to the library and acts on what comes back.
- `tests/` runs the library on concrete values.
