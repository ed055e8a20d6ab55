# grok_welcome_billing

Two pieces of a terminal coding assistant, written in Verus with their
behaviour stated as contracts and proved:

- the welcome-screen logo: which braille moon fits a window, the rows and
  widths layouts budget for it, the animation frame counter, the braille
  glyphs of the moon disc, and the grouping of a line's cells into colour
  runs (`logo`, `moon`, `spans`);
- the billing extension: the shapes the pager renders, the routing of the
  extension methods, and the mapping of a Kimi `/usages` quota payload onto
  the billing summary, with its reset hints, quota-window labels and booster
  wallet (`billing`, `kimi`), over a small JSON document model (`json`), the
  integer reading of doubles (`double`), UTC instants (`clock`) and text
  helpers (`text`).

`app/` holds what stays outside the verifier: the serde shapes and the
conversion of parsed JSON, the extension dispatch around the HTTP reply, the
floating-point shading of the moon, and the ratatui rendering.
