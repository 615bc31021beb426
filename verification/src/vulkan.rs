pub mod debug;
pub mod instance;
pub mod validation;
