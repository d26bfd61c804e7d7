[package]
name = "split_tunnel"
version = "0.1.0"
edition = "2021"
publish = false

[dependencies]
duct = "0.13"
err-derive = "0.3"
futures = "0.3"
ipnetwork = "0.16"
libc = "0.2"
log = "0.4"
log-panics = "2"
nix = "0.23"
serde = { version = "1", features = ["derive"] }
serde_json = "1"
tokio = { version = "1", features = ["rt", "rt-multi-thread"] }
tun = "0.5"
widestring = "0.5"
winapi = { version = "0.3", features = ["errhandlingapi", "handleapi", "ifdef", "in6addr", "inaddr", "ioapiset", "minwinbase", "minwindef", "netioapi", "ntdef", "synchapi", "winbase", "winerror", "winioctl"] }
zeroize = "1"
