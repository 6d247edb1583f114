//! Formatting of RDF triples in N-Quads and TriG from Rust native types.
pub mod errors;
pub mod graphs;
pub mod namespaces;
pub(crate) mod index_set;
pub mod literal;
pub mod nodes;
pub mod quads;
pub mod raw;
pub mod traits;
pub mod triples;
pub mod triplestore;
pub mod utils;

pub use nodes::{
    BlankNode, BooleanLiteral, DateTimeLiteral, DecimalLiteral, GYearLiteral, LiteralNode,
    NamedNode, StringLiteral, statics,
};
pub use traits::{WriteNQuads, WriteTriG};
pub use triples::Triple;
pub use triplestore::TripleStore;
