//! Threshold key lifecycle and homomorphic strategy evaluation.
//!
//! A fully-homomorphic key pair is produced per request; its secret half is
//! split into two XOR shares held by independent nodes, and encrypted
//! strategy predicates are resolved through those nodes.
pub mod auth;
pub mod decryption;
pub mod digest;
pub mod evaluation;
pub mod fhe_core;
pub mod hex_text;
pub mod lifecycle;
pub mod mpc;
pub mod node_api;
pub mod sharing;
