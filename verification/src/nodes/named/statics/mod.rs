//! Widely used vocabularies, declared statically: RDF, RDFS, OWL, SKOS and
//! AO-Cat.
pub mod aocat;
pub mod owl;
pub mod rdf;
pub mod rdfs;
pub mod skos;
