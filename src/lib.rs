pub mod engine;
pub mod linker;
pub mod memory_view;
pub mod signatures;
pub mod types;
