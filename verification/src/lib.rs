//! The life of a GraphQL tool server, from waiting for its configuration to serving its clients:
//! the states it passes through, what each event does to them, and what a running server answers.

pub mod apps;
pub mod error;
pub mod headers;
pub mod laws;
pub mod laws_machine;
pub mod laws_serving;
pub mod laws_texts;
pub mod machine;
pub mod operation;
pub mod platform;
pub mod rendering;
pub mod request;
pub mod resources;
pub mod running;
pub mod schema;
pub mod server_info;
pub mod states;
pub mod tool_call;
pub mod tools;
pub mod words;
