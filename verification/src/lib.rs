pub mod compiler;
pub mod datatypes;
pub mod interpreter;
pub mod machine;
