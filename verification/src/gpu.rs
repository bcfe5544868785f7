//! The fixed GPU surface configuration.
//!
//! The swap-chain is always built the same way: 8-bit BGRA with sRGB
//! encoding, usable as a render target only, presented with the
//! lowest-latency triple-buffering mode. Only its width and height vary,
//! and they always equal the viewport's physical size of the moment.
//! The frame's first render pass clears the whole target to the host
//! application's background colour.

use vstd::prelude::*;

verus! {

/// The pixel format of a swap-chain texture.
#[derive(Clone, Copy, Debug, PartialEq, Eq, Structural)]
pub enum TextureFormat {
    /// 8-bit blue, green, red and alpha channels, sRGB-encoded.
    Bgra8UnormSrgb,
}

/// How a swap-chain texture may be used.
#[derive(Clone, Copy, Debug, PartialEq, Eq, Structural)]
pub enum TextureUsage {
    /// As a render target only.
    OutputAttachment,
}

/// How finished frames are presented on screen.
#[derive(Clone, Copy, Debug, PartialEq, Eq, Structural)]
pub enum PresentMode {
    /// Lowest-latency triple buffering.
    Mailbox,
}

/// What a render pass does with the target's previous contents.
#[derive(Clone, Copy, Debug, PartialEq, Eq, Structural)]
pub enum LoadOp {
    /// Replace them with the clear colour.
    Clear,
}

/// What a render pass does with its output.
#[derive(Clone, Copy, Debug, PartialEq, Eq, Structural)]
pub enum StoreOp {
    /// Keep it in the target.
    Store,
}

/// The declared shape of a swap-chain.
#[derive(Clone, Copy, Debug, PartialEq, Eq, Structural)]
pub struct SwapChainDescriptor {
    /// How the textures may be used.
    pub usage: TextureUsage,
    /// The pixel format of the textures.
    pub format: TextureFormat,
    /// The width in physical pixels.
    pub width: u32,
    /// The height in physical pixels.
    pub height: u32,
    /// The presentation mode.
    pub present_mode: PresentMode,
}

/// The one swap-chain shape ever built for a physical size: fixed
/// format, usage and present mode, and exactly the given width and
/// height.
pub open spec fn spec_swap_chain_descriptor(width: u32, height: u32) -> SwapChainDescriptor {
    SwapChainDescriptor {
        usage: TextureUsage::OutputAttachment,
        format: TextureFormat::Bgra8UnormSrgb,
        width,
        height,
        present_mode: PresentMode::Mailbox,
    }
}

/// Describes the swap-chain for a physical size.
pub fn swap_chain_descriptor(width: u32, height: u32) -> (d: SwapChainDescriptor)
    ensures
        d == spec_swap_chain_descriptor(width, height),
{
    SwapChainDescriptor {
        usage: TextureUsage::OutputAttachment,
        format: TextureFormat::Bgra8UnormSrgb,
        width,
        height,
        present_mode: PresentMode::Mailbox,
    }
}

/// A colour, by its four channels. The channel scalar is passed through
/// from the host application unconverted.
#[derive(Clone, Copy, Debug, PartialEq)]
pub struct Color<S> {
    /// The red channel.
    pub r: S,
    /// The green channel.
    pub g: S,
    /// The blue channel.
    pub b: S,
    /// The alpha channel.
    pub a: S,
}

/// The background render pass of a frame: it clears the target to the
/// host application's background colour and keeps the result.
#[derive(Clone, Copy, Debug, PartialEq)]
pub struct ClearPass<S> {
    /// What happens to the target's previous contents.
    pub load_op: LoadOp,
    /// What happens to the pass's output.
    pub store_op: StoreOp,
    /// The colour the target is cleared to.
    pub clear_color: Color<S>,
}

/// Describes the background pass for a frame: a clear to exactly the
/// given background colour, stored.
pub fn clear_pass<S: Copy>(background: Color<S>) -> (p: ClearPass<S>)
    ensures
        p.load_op == LoadOp::Clear,
        p.store_op == StoreOp::Store,
        p.clear_color == background,
{
    ClearPass { load_op: LoadOp::Clear, store_op: StoreOp::Store, clear_color: background }
}

} // verus!
