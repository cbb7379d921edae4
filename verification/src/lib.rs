pub mod forward;
pub mod headers;
pub mod method;
pub mod text;
