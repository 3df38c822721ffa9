[package]
name = "taskdoc"
version = "0.1.0"
edition = "2021"
publish = false

[dependencies]
yrs = "*"
serde = { version = "*", features = ["derive"] }
serde_json = "*"
log = "*"
