# esp3d

Firmware core for an ESP32 board driving an ILI9341 panel (320x240,
landscape) with RGB565 frame buffers.

- `src/` is the verified library:
  - `color` — RGB565 colors as their 16-bit storage word;
  - `framebuffer` — the pixel store, kept byte-swapped so the panel can read
    it high byte first;
  - `swapchain` — the application's side of the double buffer, and a model of
    the whole buffer cycle with its invariant and liveness;
  - `triangle` — the bouncing-triangle motion;
  - `cube` — the cube mesh and its geometric properties;
  - `scene` — depth buffer and frame pacing of the 3D loop;
  - `display` — the unwired reset pin.
- `app/` holds what runs on the board: SPI/DMA set-up, the embassy channels
  and tasks, the render loops, and the bevy plugins.
- `tests/` runs the library on concrete values.
