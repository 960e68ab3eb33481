//! Discovery of the resources of an installed Python distribution: each file of a
//! directory tree is classified as a source, bytecode or extension module, an egg,
//! a path file or a data resource, and given the dotted address Python imports it
//! under.
pub mod environment;
pub mod fsscan;
pub mod resource;
pub mod text;
