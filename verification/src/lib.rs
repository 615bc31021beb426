pub mod keyboard;
pub mod vulkan;
pub mod window;
