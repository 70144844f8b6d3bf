//! Planning of an off-screen render target: which colour attachment each
//! render target takes, what the depth-stencil buffer is stored as, and
//! whether the driver reported the result complete.
use vstd::prelude::*;

use crate::glenum;

verus! {

/// Number of colour attachment points a framebuffer offers.
pub const MAX_COLOR_ATTACHMENTS: usize = 32;

/// The storage formats of one render target of a framebuffer.
#[derive(Clone, Copy, Debug, PartialEq, Eq, Structural)]
pub struct RenderTargetDescription {
    pub internal_format: u32,
    pub format: u32,
    pub data_type: u32,
}

#[derive(Clone, Copy, Debug, PartialEq, Eq, Structural)]
pub enum FramebufferError {
    /// A framebuffer needs at least one render target to draw into.
    NoRenderTargets,
    /// More render targets than colour attachment points.
    TooManyRenderTargets,
    /// The driver's completeness check returned this status.
    Incomplete(u32),
}

pub open spec fn spec_color_attachment(index: int) -> u32 {
    (glenum::COLOR_ATTACHMENT0 + index) as u32
}

/// The colour attachment point of render target `index`, or `None` past the
/// last attachment point.
pub fn color_attachment(index: usize) -> (r: Option<u32>)
    ensures
        r == (if index < MAX_COLOR_ATTACHMENTS {
            Some(spec_color_attachment(index as int))
        } else {
            None
        }),
{
    if index < MAX_COLOR_ATTACHMENTS {
        Some(glenum::COLOR_ATTACHMENT0 + index as u32)
    } else {
        None
    }
}

/// The attachment points of `count` render targets, in order: render target
/// `i` is drawn to attachment `i`. Fails when there are none or more than
/// there are attachment points.
pub fn attachment_plan(count: usize) -> (r: Result<Vec<u32>, FramebufferError>)
    ensures
        count == 0 ==> r == Err::<Vec<u32>, FramebufferError>(FramebufferError::NoRenderTargets),
        count > MAX_COLOR_ATTACHMENTS ==> r == Err::<Vec<u32>, FramebufferError>(
            FramebufferError::TooManyRenderTargets,
        ),
        1 <= count <= MAX_COLOR_ATTACHMENTS ==> (r matches Ok(v) && v@ == Seq::new(
            count as nat,
            |i: int| spec_color_attachment(i),
        )),
{
    if count == 0 {
        return Err(FramebufferError::NoRenderTargets);
    }
    if count > MAX_COLOR_ATTACHMENTS {
        return Err(FramebufferError::TooManyRenderTargets);
    }
    let mut attachments: Vec<u32> = Vec::with_capacity(count);
    let mut i: usize = 0;
    while i < count
        invariant
            i <= count <= MAX_COLOR_ATTACHMENTS,
            attachments@ == Seq::new(i as nat, |k: int| spec_color_attachment(k)),
        decreases count - i,
    {
        attachments.push(glenum::COLOR_ATTACHMENT0 + i as u32);
        i = i + 1;
        assert(attachments@ =~= Seq::new(i as nat, |k: int| spec_color_attachment(k)));
    }
    Ok(attachments)
}

/// The combined 24-bit depth, 8-bit stencil buffer every framebuffer carries.
pub fn depth_stencil_description() -> (r: RenderTargetDescription)
    ensures
        r == (RenderTargetDescription {
            internal_format: glenum::DEPTH24_STENCIL8,
            format: glenum::DEPTH_STENCIL,
            data_type: glenum::UNSIGNED_INT_24_8,
        }),
{
    RenderTargetDescription {
        internal_format: glenum::DEPTH24_STENCIL8,
        format: glenum::DEPTH_STENCIL,
        data_type: glenum::UNSIGNED_INT_24_8,
    }
}

/// Accepts the status of a completeness check when it reports a complete
/// framebuffer.
pub fn check_status(status: u32) -> (r: Result<(), FramebufferError>)
    ensures
        r == (if status == glenum::FRAMEBUFFER_COMPLETE {
            Ok::<(), FramebufferError>(())
        } else {
            Err(FramebufferError::Incomplete(status))
        }),
{
    if status == glenum::FRAMEBUFFER_COMPLETE {
        Ok(())
    } else {
        Err(FramebufferError::Incomplete(status))
    }
}

pub open spec fn spec_gbuffer_targets() -> Seq<RenderTargetDescription> {
    seq![
        RenderTargetDescription {
            internal_format: glenum::RGBA16F,
            format: glenum::RGBA,
            data_type: glenum::FLOAT,
        },
        RenderTargetDescription {
            internal_format: glenum::RGBA16F,
            format: glenum::RGBA,
            data_type: glenum::FLOAT,
        },
        RenderTargetDescription {
            internal_format: glenum::RGBA,
            format: glenum::RGBA,
            data_type: glenum::UNSIGNED_BYTE,
        },
    ]
}

/// The render targets of the geometry buffer: positions and normals in
/// half-float precision, then albedo and roughness in 8 bits per channel.
pub fn gbuffer_targets() -> (r: Vec<RenderTargetDescription>)
    ensures
        r@ == spec_gbuffer_targets(),
{
    let half_float = RenderTargetDescription {
        internal_format: glenum::RGBA16F,
        format: glenum::RGBA,
        data_type: glenum::FLOAT,
    };
    let bytes = RenderTargetDescription {
        internal_format: glenum::RGBA,
        format: glenum::RGBA,
        data_type: glenum::UNSIGNED_BYTE,
    };
    let r = vec![half_float, half_float, bytes];
    assert(r@ =~= spec_gbuffer_targets());
    r
}

} // verus!
