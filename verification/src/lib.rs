//! Flattening engine for a real-time transit feed.
//!
//! The library decodes binary feed-message payloads into a typed tree
//! (`model`, `wire`, `utf8`, `decode`), walks the entity list to produce
//! flat tabular records with well-defined defaults for absent optional
//! fields (`flatten`), isolates per-feed decode failures and aggregates
//! concurrent fetch results in an order-preserving, fail-fast manner
//! (`pipeline`), and loads the auxiliary delimited-text lookup table
//! through its outside parser (`dictionary`). Network retrieval and table
//! rendering are left to the surrounding application.

pub mod decode;
pub mod dictionary;
pub mod flatten;
pub mod model;
pub mod pipeline;
pub mod utf8;
pub mod wire;
