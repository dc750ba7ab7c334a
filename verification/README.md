# reseam_patcher

The decision logic of the Reseam APK patch engine, written in Verus with its
behaviour stated in `requires` / `ensures` contracts and proved.

## Layout

- `src/` — the verified library:
  - `graph`, `dependency`, `index`, `plan`, `run`: which patches of the loaded
    bundles run, in what dependency order, why the others are skipped, and
    what a run reports;
  - `options`, `log`, `model`, `patch`, `error`: the data the engine works on
    and the texts it reports;
  - `bundle`, `digest`, `signing`: the checks a `.reseam` bundle passes
    (format and engine version, Ed25519 signature, SHA-256 of every payload
    file) before its payload is trusted;
  - `extensions`: which extension DEX files to merge when a patch refers to a
    class only they define;
  - `instruction`, `convert`: the instruction records patches read and
    write, and how DEX instructions map to them and back;
  - `descriptor`, `names`, `invoke`, `search`, `handles`, `context`: the
    small parsers, lowerings and tables the hosted patch runtime relies on.
- `app/` — the unverified shell: reading files and bundle archives, the
  TOML form of the manifest, writing packed bundles, running patch hooks.
- `tests/` — scenarios run against the compiled library.

SHA-256, hex encoding, Ed25519 signing and checking, reading a jar's entries
and the fast hash map come from `sha2`, `hex`, `ed25519-dalek`, `zip` and
`rustc-hash`, called through a few trusted wrappers whose contracts say what
those crates document.
