pub mod engine;
pub mod execute;
pub mod interpreter;
pub mod laws;
pub mod machine;
pub mod opcode;
