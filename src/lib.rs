pub mod debug;
pub mod framebuffer;
pub mod glenum;
pub mod input;
pub mod mesh;
pub mod model;
pub mod shader;
pub mod texture;

pub use framebuffer::{FramebufferError, RenderTargetDescription};
pub use model::{TextureCache, TextureData};
pub use texture::Texture;
