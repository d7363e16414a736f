# NixOS Toolkit

Declarative NixOS system management: pick a desktop profile and software
bundles, preview the Nix code that results, and let a privileged helper write
it under `/etc/nixos/nixos-toolkit/` and run `nixos-rebuild`.

## Layout

- `src/` — the verified library (Verus):
  - `actions.rs` — the registry of profiles, bundles, system and maintenance
    actions, with proofs that ids are unique and templates follow ids;
  - `nix.rs` — generation of `selected.nix` and the hostname, DNS and
    user-group snippets, the preview, and the list of files to write, with
    proofs that the preview shows exactly the generated files and that every
    file lies in the managed directory;
  - `state.rs` — the GUI's selection state as sets, and its IPC form;
  - `commands.rs`, `rebuild.rs`, `integration.rs` — the helper's decisions:
    validation, generation listing, the maintenance allowlist, rebuild
    arguments and outcomes, system detection from probed facts;
  - `pages.rs` — the logic behind the GUI pages;
  - `text.rs`, `strset.rs` — verified string utilities and string sets.
- `app/` — the helper program: JSON over stdin/stdout, file system access
  and processes, calling the library for every decision.
- `tests/` — tests of the library on concrete values.
