[package]
name = "sip_bridge"
version = "0.1.0"
edition = "2021"
publish = false

[dependencies]
clap = { version = "=4.4.18", default-features = false, features = ["std", "help", "usage", "derive"] }
color-eyre = { version = "=0.6.5", default-features = false }
deadpool-sqlite = "=0.7.0"
fastwebsockets = { version = "=0.4.4", features = ["upgrade"] }
hyper = { version = "=0.14.32", features = ["client", "http1"] }
local-ip-address = "=0.5.6"
matrix-sdk = { version = "=0.7.1", default-features = false, features = ["sqlite", "rustls-tls"] }
rsip = "=0.4.0"
ruma-events = { version = "=0.27.11", default-features = false }
secrecy = "=0.8.0"
serde = { version = "1", features = ["derive"] }
tokio = { version = "=1.35.1", features = ["macros", "rt-multi-thread", "net", "sync", "time"] }
tokio-rustls = "=0.24.1"
tracing = { version = "0.1", default-features = false, features = ["std"] }
tracing-subscriber = { version = "0.3", default-features = false, features = ["fmt"] }
uuid = { version = "=1.4.1", features = ["v4"] }
webpki-roots = "0.25"
webrtc = { version = "=0.9.0", default-features = false }

# Held back, and used by no file here: newer releases of these bring a second
# copy of a crate that is in the tree already, or many crates of their own.
blake3 = "=1.5.0"
indexmap = "=2.2.6"
matrix-sdk-sqlite = { version = "=0.7.0", default-features = false }
ring = { version = "=0.17.7", default-features = false }
socket2 = "=0.5.5"
url = "=2.5.2"

# Newer releases need a newer tokio than the one above.
tokio-stream = "=0.1.14"

# Newer releases use another release of rtp than webrtc does, so the packets of
# the one could not be handed to the other.
webrtc-media = "=0.7.0"
