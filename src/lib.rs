//! Native side of the point-of-sale desktop shell: the raw printer job that
//! sends a byte buffer to a network receipt printer, and the schema
//! migrations registered with the local database at start-up.
pub mod printer;
pub mod schema;
