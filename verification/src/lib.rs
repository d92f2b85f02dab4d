//! Verified core of a kdb+ (`k.h`) binding: the type codes and sentinel values
//! of the q data model, the null-safe reading and describing of q objects,
//! the copy plan behind deep copies and copy-on-write, the interned error
//! texts handed to `krr`, and the decisions of the IPC client.
#![allow(non_snake_case)]
#![allow(non_camel_case_types)]

pub mod types;
pub mod decimal;
pub mod ipc;
pub mod std_text;
pub mod object;
pub mod errors;
