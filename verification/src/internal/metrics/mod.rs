pub mod console;
pub mod har;
