pub mod database;
pub mod logging;
pub mod daemon;
pub mod codegen;
