# neocolor

Colour highlighting for Neovim: hex codes (`#RRGGBB`, `#RRGGBBAA` everywhere;
`#RGB`, `#RGBA` in CSS-family files), CSS `rgb()`, `hsl()`, `var(--name)` and
colour keywords, and Rust `rgb(0x..)`, `rgba(0x..)`, `hsla(..)`.

- `src/` is the library, verified with Verus: finding the colour notations in
  buffer lines and style sheets (`scan`, `marks`, `resolve`), reading hex codes
  and units (`hex`, `units`), the colour keywords (`named`), the table of custom
  properties (`vars`), the highlight names (`names`), and the properties of all
  of these (`laws`). Pattern search goes through the `regex` crate (`matching`,
  `patterns`).
- `app/` is the Neovim plugin around it: reading buffers and files, the
  decimal-number arithmetic of `rgb()`/`hsl()` channels, and the editor calls.
