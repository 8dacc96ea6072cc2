pub mod echo;
pub mod fixed_output;
pub mod git;
pub mod shell;
