[package]
name = "quad_bank"
version = "0.1.0"
edition = "2021"
publish = false

[dependencies]
serde_json = "*"
serde = { version = "*", features = ["derive"] }
diesel = { version = "*", features = ["sqlite", "r2d2"] }
r2d2 = "*"
clap = "*"
iron = "*"
router = "*"
bodyparser = "*"
persistent = "*"
logger = "*"
rocket = { version = "*", features = ["json"] }
error-chain = "*"
slog = "*"
slog-term = "*"
slog-scope = "*"
slog-stdlog = "*"
simplelog = "*"
