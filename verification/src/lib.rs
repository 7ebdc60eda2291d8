//! A schema-to-diagram compiler: raw SQL `CREATE TABLE` text is parsed by an
//! external SQL-parsing collaborator, normalized into a relational schema
//! model (tables, columns, classified constraints, foreign-key relationships),
//! and serialized as diagram-description text for an external renderer.

pub mod ast;
pub mod laws;
pub mod parse;
pub mod render;
pub mod schema;
