# screen_ocr

The verified core of a tray utility that grabs text from the screen: a
global hotkey freezes the desktop, the user drags a box over some text, the
box is cut out, cleaned up (2x Catmull-Rom upscale, grayscale, Otsu
threshold, dark-mode inversion), handed to the bundled Tesseract engine,
and the recognised text is put on the clipboard.

Layout:

- `src/` — the library, verified with Verus.
  - `config.rs`, `keys.rs`, `modifiers.rs`: the hotkey configuration.
  - `overlay.rs`: the per-frame decisions of the overlay window, the hotkey
    and tray-menu reactions, and cutting out a finished selection.
  - `capture.rs`: monitor geometry and composing the frozen desktop.
  - `imaging.rs`, `preprocessing.rs`: pixel buffers, the `image` and
    `imageproc` operations used, and the OCR clean-up pipeline.
  - `ocr.rs`, `text.rs`: temporary file names, unpacking decisions, text
    trimming and what is done with a recognition result.
- `app/` — the program around it: window, tray icon, hotkey registration,
  screen capture, running Tesseract, clipboard and notifications.
- `tests/` — tests of the library.

The program expects `assets/tesseract.zip` and `assets/icon.png` next to
its executable.
