pub mod bytecode;
pub mod error;
pub mod registers;
