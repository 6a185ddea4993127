# render2d

Bookkeeping core of a small 2D sprite renderer built on `wgpu`, verified with Verus.

- `src/` — the verified library:
  - `layout.rs`: vertex buffer layouts of the instance-transform, colored-vertex and
    textured-vertex records, and the proof that they are tightly packed and sound.
  - `buffer.rs`: byte ledger of a growable GPU buffer (where appends land, when the
    buffer grows, which in-place writes are allowed).
  - `pose.rs`: timing of interpolated poses (settled or moving, and how far).
  - `material.rs`: meshes of a textured material, their instance tables, and the
    per-frame draw calls.
  - `texture.rs`: decoding of a texture image file's contents (through `image`) and the
    layout of its copy into a texture.
  - `scene.rs`: static colored objects and the materials of a scene.
  - `renderer.rs`: the scenes, the active scene, and the per-frame decision.
  - `utils.rs`: surface errors, the answer to a surface texture request, and the
    choice of surface format.
- `app/` — the window, GPU and floating-point side, which performs what the library
  decides.
- `tests/` — tests of the library on concrete values.
