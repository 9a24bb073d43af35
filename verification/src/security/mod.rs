pub mod shell_validator;
pub mod input_sanitizer;

pub use shell_validator::ShellValidator;

pub use input_sanitizer::InputSanitizer;
