[package]
name = "git_auto_backup"
version = "0.1.0"
edition = "2021"
publish = false

[dependencies]
git2 = { version = "*", default-features = false }
copy_dir = "*"
gitignored = "*"
globset = "0.4.5"
chrono = { version = "0.4", default-features = false, features = ["clock", "std"] }
sys-info = "*"
keyring = "2"
dirs = "*"
notify = "*"
serde = { version = "1", features = ["derive"] }
serde_json = "1"
structopt = "0.3"
single-instance = "*"
nix = "0.26"
