pub mod ast;
pub mod errors;
pub mod parser;
pub mod pratt;
pub mod statement;
pub mod tokenizer;
