//! The client program: what it reads, derives and validates.
pub mod blobs;
pub mod driver;
pub mod program;
pub mod provider;
