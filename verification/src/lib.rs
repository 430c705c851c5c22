//! Streaming decoder for JSON array dumps, with the schema inference and the
//! entity vocabulary that go with it.

pub mod array_decoder;
pub mod config;
pub mod download;
pub mod err;
pub mod model;
pub mod schema;
pub mod table;
pub mod target;
pub mod text;
