//! What the database layer computes from the rows its queries return. The queries
//! themselves run in the binary.

pub mod queries;
pub mod seed;
