//! Request schema, validation and endpoint decisions of a basket service
//! that demonstrates the difference between declaring a constraint on a
//! payload and evaluating it on the request path.

pub mod schema;
pub mod text;
pub mod validation;
pub mod report;
pub mod handlers;
pub mod laws;
