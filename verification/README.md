# refinery_rs

Refinery ships Rust projects to many platforms: it keeps a `refinery.toml`
describing binaries, libraries and per-OS target matrices, generates GitHub
Actions pipelines, prepares `Cargo.toml` for installers (deb, rpm, WiX), builds
and packages targets locally, and bumps and tags releases.

The library in `src/` is verified with Verus; `app/` is the `refinery` program
around it (command line, prompts, files, processes, network).

## Layout

- `src/schema/` — the configuration (`config`, `targets`, `artifacts`, `types`),
  the build-engine schema (`refinery`), the model of `Cargo.toml` documents
  (`document`, over `toml_edit`) and the manifest edits (`metadata`).
- `src/workflow/` — the unified pipeline and quality-gate workflows.
- `src/writer.rs`, `src/models.rs` — the standalone CI and release workflow files.
- `src/builder.rs`, `src/packaging.rs`, `src/project.rs` — targets to build, the
  commands that build and package them, and `Cargo.toml` synchronisation.
- `src/release.rs`, `src/commands/` — version bumps (over `semver`), release
  manifests and git plans; the command-line arguments and their decisions.
- `src/wizard/` — what each answer of the interactive wizard does.
- `src/setup.rs`, `src/ui.rs` — smaller decisions of `init`, `forge`, `setup`,
  `check`, the steps of checking for (and installing) a cargo tool, and what
  the terminal shows.
- `src/text.rs` — verified string helpers.

Properties that span several functions are stated as `law_*` proof functions
next to the functions they speak of.
