# proto_terraform

The logic of a [proto](https://moonrepo.dev/proto) plugin that manages
Terraform versions, with its behaviour stated in Verus contracts and proved.

- `src/plugin.rs` — the plugin's functions: registration, version files,
  the list of releases, version resolution, prebuilt downloads, executables.
- `src/platform.rs` — host platforms, the platforms Terraform publishes
  releases for, and executable file names.
- `src/text.rs` — trimming and other character-level string operations.
- `src/outside.rs` — the version types of the proto plugin API and the calls
  into them, each with the contract the library relies on.
- `src/error.rs` — why a call fails.
- `src/laws.rs` — properties that span functions or all inputs.
- `app/` — the WASM entry points: host input and output, HTTP fetch of the
  release index, and the host environment.
