# luma11y

The logic of the Luma11y colour contrast checker, as a Verus library, and the
desktop shell around it.

`src/` (verified):

- `text` — decimal rendering, string equality and prefixes.
- `color` — the hexadecimal colour input (`#abc`, `#abcd`, `#aabbcc`,
  `#aabbccdd`) and output, and the CSS-like display strings
  (`rgb(...)`, `hsl(...)`, `hsv(...)`, `lab(...)`, the ` / NN%` alpha suffix).
- `lang`, `i18n` — the English, French and Slovak menu tables and the
  English fallback.
- `menu` — menu item identifiers (copy templates, colour profiles) and what a
  click on an item asks for.
- `store` — copy templates, the colour slots a key names, the text forms of a
  colour.
- `picker` — the picking session (clicks, keys, capture size), the pixel
  under the reticle, the overlay windows to redraw.

`app/` holds what Verus does not see: the Tauri application, the colour-space
conversions done in floating point with `palette`, and the macOS picker
(AppKit, Core Graphics), which hands its events to `luma11y::picker`.
