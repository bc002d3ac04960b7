pub mod bytecode;
pub mod cli;
pub mod components;
pub mod error;
pub mod network;
pub mod stack;
pub mod string_pool;
pub mod utils;
pub mod virtual_machine;
pub mod vm;
pub mod vm_info;
