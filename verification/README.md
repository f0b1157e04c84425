# waveshare28_panel

Renderer logic for a Waveshare 2.8 inch SPI LCD with a CST328 touch
controller, showing a Volumio player: layout and hit regions, the boot
status screen, the resting face and its surfaces, touch handling, the
Volumio state and command formats, the minimal HTTP framing, album-art
fetch scheduling and pixel conversion, and the framebuffer checks.

- `src/` is the verified library. Each module states its behaviour in
  `requires` / `ensures` contracts over spec functions, and proves laws such
  as "a fetched cover is never fetched again", "every tap on the artwork
  closes it" and "a volume command stays within 0..100".
- `app/` is the program around it: the main loop, sockets, files, GPIO,
  SPI, the framebuffer mapping, threads, SVG rasterisation and painting with
  `embedded-graphics`.
- `tests/` runs the library on concrete values.
