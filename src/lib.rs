pub mod method;
pub mod text;
pub mod reply;
pub mod target;
pub mod route;
pub mod laws;
pub mod boot;
