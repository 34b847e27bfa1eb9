//! A typed, checked view of a storage topology.
//!
//! The operating system describes its storage stack as a mesh of classes,
//! geoms, consumers and providers that refer to one another by identifiers
//! written as text. This library resolves such a mesh into a [`Graph`] whose
//! nodes and edges are keyed by numbers, and states in its contracts what the
//! resulting graph holds.

pub mod decode;
pub mod error;
pub mod graph;
pub mod laws;
pub mod order;
pub mod scan;
pub mod structs;
pub mod traverse;

pub use decode::decode_graph;
pub use error::Error;
pub use graph::{
    Edge, EdgeId, EdgeMetadata, Geom, GeomClass, Graph, Mode, NodeId, PartMetadata, PartScheme,
    PartState,
};
pub use structs as raw;
pub use traverse::{ChildEdgeIdsIter, ChildEdgesIter, ChildGeomsIter, RootsIter};
