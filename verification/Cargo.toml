[package]
name = "lsp_diagnostics"
version = "0.1.0"
edition = "2021"
publish = false

[dependencies]
deno_ast = "=0.53.3"
deno_graph = "=0.111.1"
deno_lint = "=0.84.1"
deno_semver = "=0.5.16"
import_map = "=0.21.0"
log = "0.4"
lsp-types = "=0.94.1"
serde = { version = "1", features = ["derive"] }
serde_json = "1"
tokio = { version = "=1.54.1", features = ["macros", "rt", "sync", "time"] }
tokio-util = "=0.7.20"
tower-lsp = "=0.20.0"
