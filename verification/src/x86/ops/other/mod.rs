//! Crypto and specialty extension tokens (AES, SHA, POPCNT, GFNI, CLMUL, AMD extras, ...).

pub mod aes;
pub mod amd3dnow;
pub mod fma4;
pub mod gfni;
pub mod pclmulqdq;
pub mod popcnt;
pub mod rtm;
pub mod sha;
pub mod sse4a;
pub mod vaes;
pub mod vpclmulqdq;
pub mod xop;
