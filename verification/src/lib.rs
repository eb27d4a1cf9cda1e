//! Request handling for the conformance harnesses of the Bouncy Castle
//! ML-KEM (FIPS 203) and ML-DSA (FIPS 204) implementations.
pub mod decimal;
pub mod hexcodec;
pub mod protocol;
pub mod poly;
pub mod text;
pub mod mldsa;
pub mod mlkem;
