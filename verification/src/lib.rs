//! Colabie: the wire format shared by client and registry, the registry's
//! request handling, key generation, and the developer task runner.
pub mod schemou;
pub mod ints;
pub mod bytestrings;
pub mod pairs;
pub mod messages;
pub mod base64;
pub mod registry;
pub mod extract;
pub mod keys;
pub mod xtasks;
