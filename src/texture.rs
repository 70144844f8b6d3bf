//! Textures as the renderer describes them: a handle plus the formats that
//! every (re)allocation of its storage uses.
use vstd::prelude::*;

use crate::glenum;

verus! {

/// Number of texture units the renderer binds samplers to.
pub const MAX_TEXTURE_UNITS: usize = 32;

/// The pixel format of an image with `channels` channels (one to four).
pub open spec fn spec_format_for_channels(channels: int) -> u32 {
    if channels == 1 {
        glenum::RED
    } else if channels == 2 {
        glenum::RG
    } else if channels == 3 {
        glenum::RGB
    } else {
        glenum::RGBA
    }
}

/// The format an 8-bit image with `channels` channels is stored in, or
/// `None` when no format holds that many channels.
pub fn format_for_channels(channels: usize) -> (r: Option<u32>)
    ensures
        r == (if 1 <= channels <= 4 {
            Some(spec_format_for_channels(channels as int))
        } else {
            None
        }),
{
    match channels {
        1 => Some(glenum::RED),
        2 => Some(glenum::RG),
        3 => Some(glenum::RGB),
        4 => Some(glenum::RGBA),
        _ => None,
    }
}

/// The texture unit that sampler slot `slot` is bound to, or `None` past
/// the last unit.
pub fn texture_unit(slot: usize) -> (r: Option<u32>)
    ensures
        r == (if slot < MAX_TEXTURE_UNITS {
            Some((glenum::TEXTURE0 + slot) as u32)
        } else {
            None
        }),
{
    if slot < MAX_TEXTURE_UNITS {
        Some(glenum::TEXTURE0 + slot as u32)
    } else {
        None
    }
}

#[derive(Clone, Copy, Debug, PartialEq, Eq, Structural)]
pub struct Texture {
    pub id: u32,
    pub target: u32,
    pub internal_format: u32,
    pub format: u32,
    pub data_type: u32,
}

impl Texture {
    /// A texture with handle `id` whose storage is allocated with the given
    /// target, internal format, pixel format and component type.
    pub fn new(id: u32, target: u32, internal_format: u32, format: u32, data_type: u32) -> (r: Texture)
        ensures
            r.id == id,
            r.target == target,
            r.internal_format == internal_format,
            r.format == format,
            r.data_type == data_type,
    {
        Texture { id, target, internal_format, format, data_type }
    }

    /// A 2D texture with handle `id` for an 8-bit image of `channels`
    /// channels, stored in the format of that channel count; `None` when no
    /// format holds that many channels.
    pub fn for_image(id: u32, channels: usize) -> (r: Option<Texture>)
        ensures
            match r {
                Some(t) => 1 <= channels <= 4 && t.id == id && t.target == glenum::TEXTURE_2D
                    && t.internal_format == spec_format_for_channels(channels as int)
                    && t.format == spec_format_for_channels(channels as int)
                    && t.data_type == glenum::UNSIGNED_BYTE,
                None => !(1 <= channels <= 4),
            },
    {
        match format_for_channels(channels) {
            Some(format) => Some(Texture::new(id, glenum::TEXTURE_2D, format, format, glenum::UNSIGNED_BYTE)),
            None => None,
        }
    }
}

} // verus!
