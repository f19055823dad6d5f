pub mod console;
pub mod har;
pub mod headers;
pub mod identity;
pub mod initiator;
pub mod url;
pub mod time;
