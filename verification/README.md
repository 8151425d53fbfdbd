# dlc-engine

The verified core of a live face-swap engine.

- `src/capture.rs` — camera enumeration.
- `src/provider.rs` — execution provider configuration, the session plan each
  configuration yields, ONNX session creation, FP16 model path resolution.
- `src/onnx.rs` — the trusted calls into ONNX Runtime (`ort`), and the builder, session and
  failure types that record what each call was handed.
- `src/imaging.rs` — the trusted image decoder call and its outcome, with the bytes it decoded.
- `src/paths.rs` — the trusted `std::path` operations, with named results.
- `src/models.rs` — the required models, model validation, the detector,
  enhancer and swapper components, the pipeline configuration.
- `src/server.rs` — the HTTP server's state and what each request does to it.
- `src/launcher.rs` — how the desktop shell addresses and locates the server, and the sidecar layout.
- `src/error.rs` — the engine's errors and their texts.
- `app/main.rs` — the HTTP server (axum): request parsing and JSON around the library;
  `app/validate.rs` (`--validate-models DIR [--provider P]`), `app/shell.rs`
  (`shell DIR`, `locate-server DIR`) and `app/sidecar.rs` (`sidecar ARGS`) do the file-system
  and process work of model validation, the desktop shell and the sidecar launcher.
- `tests/engine.rs` — tests on concrete values.
