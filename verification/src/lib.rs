//! The face of a chat at the command line: its help text, its prompt, the
//! completion and validation of its input line, and the steps that make a
//! console show colours.
pub mod completion;
pub mod console;
pub mod editor;
pub mod help;
pub mod helper;
pub mod prompt;
pub mod text;
