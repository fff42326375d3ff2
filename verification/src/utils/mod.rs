pub mod bech32;
pub mod bitmap;
pub mod ed25519;
