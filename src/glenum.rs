//! OpenGL enumerant values used by the renderer, as the Khronos registry
//! defines them.
use vstd::prelude::*;

verus! {

pub const TRUE: u32 = 1;

pub const UNSIGNED_BYTE: u32 = 0x1401;
pub const FLOAT: u32 = 0x1406;

pub const RED: u32 = 0x1903;
pub const RGB: u32 = 0x1907;
pub const RGBA: u32 = 0x1908;
pub const RG: u32 = 0x8227;
pub const RGBA16F: u32 = 0x881A;
pub const DEPTH_STENCIL: u32 = 0x84F9;
pub const UNSIGNED_INT_24_8: u32 = 0x84FA;
pub const DEPTH24_STENCIL8: u32 = 0x88F0;

pub const TEXTURE_2D: u32 = 0x0DE1;

/// The first texture unit; units are numbered consecutively from it.
pub const TEXTURE0: u32 = 0x84C0;
/// The first colour attachment point; attachments are numbered consecutively from it.
pub const COLOR_ATTACHMENT0: u32 = 0x8CE0;
pub const FRAMEBUFFER_COMPLETE: u32 = 0x8CD5;

pub const DEBUG_SOURCE_API: u32 = 0x8246;
pub const DEBUG_SOURCE_WINDOW_SYSTEM: u32 = 0x8247;
pub const DEBUG_SOURCE_SHADER_COMPILER: u32 = 0x8248;
pub const DEBUG_SOURCE_THIRD_PARTY: u32 = 0x8249;
pub const DEBUG_SOURCE_APPLICATION: u32 = 0x824A;
pub const DEBUG_SOURCE_OTHER: u32 = 0x824B;

pub const DEBUG_TYPE_ERROR: u32 = 0x824C;
pub const DEBUG_TYPE_DEPRECATED_BEHAVIOR: u32 = 0x824D;
pub const DEBUG_TYPE_UNDEFINED_BEHAVIOR: u32 = 0x824E;
pub const DEBUG_TYPE_PORTABILITY: u32 = 0x824F;
pub const DEBUG_TYPE_PERFORMANCE: u32 = 0x8250;
pub const DEBUG_TYPE_OTHER: u32 = 0x8251;
pub const DEBUG_TYPE_MARKER: u32 = 0x8268;
pub const DEBUG_TYPE_PUSH_GROUP: u32 = 0x8269;
pub const DEBUG_TYPE_POP_GROUP: u32 = 0x826A;

pub const DEBUG_SEVERITY_NOTIFICATION: u32 = 0x826B;
pub const DEBUG_SEVERITY_HIGH: u32 = 0x9146;
pub const DEBUG_SEVERITY_MEDIUM: u32 = 0x9147;
pub const DEBUG_SEVERITY_LOW: u32 = 0x9148;

} // verus!
