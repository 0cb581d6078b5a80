pub mod ast;
pub mod builtins;
pub mod engine;
pub mod lexer;
pub mod errors;
pub mod number;
pub mod parser;
pub mod record;
pub mod types;
pub mod utils;
