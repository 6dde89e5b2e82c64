//! A byte-buffer mutation engine for fuzz-testing the consumers of binary
//! data.
//!
//! A buffer and a range of its offsets go in; a deliberately damaged copy
//! comes out. The damage is done by strategies, each of which rewrites
//! randomly chosen bytes of the range by a rule of its own, and a chain
//! applies strategies one after another to a working copy while it keeps
//! the buffer it was loaded with.
//!
//! The engine treats its input as bytes and nothing more. Randomness comes
//! from a source that the caller hands in, so that a run can be repeated.
//! Every contract is stated over what a run does as a function of the
//! offsets and bytes that were drawn: see [`corruptors::replay`].

pub mod corruptors;
