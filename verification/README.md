# rsfences

Desktop "fences" for Windows: resizable, movable containers on the wallpaper
that hold shortcuts. The decisions of the program are a library proved with
Verus; the Windows plumbing around it is ordinary Rust.

## Layout

- `src/` — the verified library.
  - `config/` — colours (ARGB and `COLORREF` text forms, how a colour paints),
    the settings and their defaults, the saved state and its icon list.
  - `fence/` — hit testing and mouse handling (`hit`), the icon grid, scroll
    range and part areas (`icons`), scroll-bar and wheel positions (`scroll`),
    sticky fences on screen size changes (`fences`), menus and commands
    (`command`), the import list (`import`), and a plain fence (`basic`).
  - `cover.rs` — the tray menu and where new fences open.
  - `layout.rs` — stacking dialog controls along an axis.
  - `prompt.rs`, `save.rs`, `instance.rs` — the prompt answer state, the
    periodic saver, and the single-instance file.
  - `geo.rs`, `window.rs`, `input.rs`, `text.rs`, `error.rs` — geometry, window
    areas and class registration, message parameters, digits, Win32 errors.
- `tests/` — tests of the library.
- `app/` — the Windows program: windows, painting, files, prompts.
