[package]
name = "nfs4_client"
version = "0.1.0"
edition = "2021"
publish = false

[dependencies]
nfs4 = "=0.1.0"
rand = "=0.8.8"
sun_rpc_client = "=0.1.0"

[dev-dependencies]
serde-xdr = "=0.6.0"
