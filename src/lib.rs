pub mod backend;
pub mod config;
pub mod instruction;
pub mod laws;
pub mod program;
pub mod translate;

pub use backend::{CompilationOutcome, InvokerAction, InvokerEvent, InvokerState};
pub use config::ConfigError;
pub use instruction::Instruction;
pub use program::Program;
pub use translate::translate;
