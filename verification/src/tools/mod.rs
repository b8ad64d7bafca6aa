pub mod parser;
pub mod schema;
