# bevy_aqua_bsn

Verified decision logic of Aqua's BSN Editor integration: which authored
ocean is authoritative and when it is projected, how localized water bodies
are projected and cleaned up, how the editor adapts and restores its main
viewport camera, and what the authoring operators do.

- `src/` — the library, verified with Verus: `selection` (lowest entity id),
  `ocean`, `water_body`, `viewport`, `authoring` (discrete authored choices
  and their runtime counterparts), `editor` (extension identity, operators).
- `tests/` — scenarios run against the compiled library.
- `app/` — the Bevy and BSN Editor plumbing that gathers world state, calls
  the library, and carries out its decisions; it also holds the
  floating-point authoring data.
