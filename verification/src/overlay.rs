//! The texture that an inverted window's UI is drawn into.

use vstd::prelude::*;

use crate::config::{PhysicalSize, TextureFormat};
use crate::perf::switched_on;

verus! {

/// The UI overlay of an inverted window. The texture persists and its content
/// accumulates over the frames; `T` is a handle of the texture, `V` one of a
/// view of it.
#[derive(Debug)]
pub struct InvertedUi<T, V> {
    pub texture: T,
    pub view: V,
    /// The size of the window that the overlay was made for.
    pub size: PhysicalSize,
    /// Nothing was painted into the overlay yet, so that the next frame has to
    /// paint all of it.
    pub fresh: bool,
}

/// What a texture may be used for.
#[derive(Clone, Copy, Debug, PartialEq, Eq, Structural)]
pub enum TextureUse {
    /// As the target of a render pass.
    RenderAttachment,
    /// As a texture that a shader samples.
    TextureBinding,
    /// As the source of a copy.
    CopySource,
}

impl TextureUse {
    /// The bit that stands for the use in a set of uses.
    pub open spec fn flag(self) -> u32 {
        match self {
            TextureUse::RenderAttachment => 16,
            TextureUse::TextureBinding => 4,
            TextureUse::CopySource => 1,
        }
    }
}

/// Calls `bits` of `wgpu::TextureUsages`, on the constant of one use. The
/// contract claims that each constant is the one bit that [`TextureUse::flag`]
/// gives.
#[verifier::external_body]
fn texture_use_bits(texture_use: TextureUse) -> (bits: u32)
    ensures
        bits == texture_use.flag(),
{
    let set = match texture_use {
        TextureUse::RenderAttachment => wgpu::TextureUsages::RENDER_ATTACHMENT,
        TextureUse::TextureBinding => wgpu::TextureUsages::TEXTURE_BINDING,
        TextureUse::CopySource => wgpu::TextureUsages::COPY_SRC,
    };
    set.bits()
}

/// The texture to create for an overlay. It is flat, with one layer, one mip
/// level and one sample.
#[derive(Debug, PartialEq, Eq)]
pub struct OverlayDescriptor {
    pub width: u32,
    pub height: u32,
    pub format: TextureFormat,
    /// What the texture may be used for, as the bits of a set.
    pub usage: u32,
}

/// The extent of a texture that covers `length` pixels: no texture is empty.
pub open spec fn texture_extent(length: u32) -> u32 {
    if length == 0 {
        1
    } else {
        length
    }
}

impl OverlayDescriptor {
    /// The overlay of a window of this size whose swapchain has this format. It
    /// is drawn into, sampled by the compose pass, and can be copied out.
    pub open spec fn covering(size: PhysicalSize, format: TextureFormat) -> OverlayDescriptor {
        OverlayDescriptor {
            width: texture_extent(size.width),
            height: texture_extent(size.height),
            format,
            usage: TextureUse::RenderAttachment.flag() | TextureUse::TextureBinding.flag()
                | TextureUse::CopySource.flag(),
        }
    }

    /// The overlay of a window of this size whose swapchain has this format.
    pub fn new(size: PhysicalSize, format: TextureFormat) -> (descriptor: OverlayDescriptor)
        ensures
            descriptor == OverlayDescriptor::covering(size, format),
    {
        let width: u32 = if size.width == 0 {
            1
        } else {
            size.width
        };
        let height: u32 = if size.height == 0 {
            1
        } else {
            size.height
        };
        let usage: u32 = texture_use_bits(TextureUse::RenderAttachment) | texture_use_bits(
            TextureUse::TextureBinding,
        ) | texture_use_bits(TextureUse::CopySource);
        OverlayDescriptor { width, height, format, usage }
    }
}

/// How many overlays were offered for a dump to disk.
#[derive(Clone, Copy, Debug, PartialEq, Eq, Structural)]
pub struct DumpCounter {
    pub offered: u32,
}

/// The number of the frame that is dumped, counted from zero.
pub const DUMPED_FRAME: u32 = 30;

impl DumpCounter {
    /// The overlay that is offered next is the one to dump.
    pub open spec fn due(self) -> bool {
        self.offered == DUMPED_FRAME
    }

    /// The counter once it was offered one more overlay. It wraps around.
    pub open spec fn after_offer(self) -> DumpCounter {
        DumpCounter {
            offered: if self.offered == u32::MAX {
                0
            } else {
                (self.offered + 1) as u32
            },
        }
    }

    /// A counter that starts at zero, once it was offered `overlays` overlays.
    pub open spec fn after_offers(overlays: nat) -> DumpCounter
        decreases overlays,
    {
        if overlays == 0 {
            DumpCounter { offered: 0 }
        } else {
            DumpCounter::after_offers((overlays - 1) as nat).after_offer()
        }
    }

    /// Offers one more overlay, and says whether it is the one to dump.
    pub fn offer(&mut self) -> (due: bool)
        ensures
            due == old(self).due(),
            *final(self) == old(self).after_offer(),
    {
        let due: bool = self.offered == DUMPED_FRAME;
        self.offered = self.offered.wrapping_add(1);
        due
    }
}

/// The overlay is dumped once: until the count wraps around, a dump is due of
/// one overlay alone.
pub proof fn law_dumped_once(earlier_overlays: nat)
    requires
        earlier_overlays <= u32::MAX,
    ensures
        DumpCounter::after_offers(earlier_overlays).offered == earlier_overlays,
        DumpCounter::after_offers(earlier_overlays).due() <==> earlier_overlays == DUMPED_FRAME,
    decreases earlier_overlays,
{
    if earlier_overlays > 0 {
        law_dumped_once((earlier_overlays - 1) as nat);
    }
}

/// How the bytes of a dumped overlay lie in a buffer.
#[derive(Clone, Copy, Debug, PartialEq, Eq, Structural)]
pub struct DumpLayout {
    pub bytes_per_row: u32,
    pub buffer_size: u64,
}

/// The bytes from one row of a dump to the next: four for each pixel, filled up
/// to a multiple of 256.
pub open spec fn row_pitch(width: u32) -> int {
    (4 * width + 255) / 256 * 256
}

impl DumpLayout {
    /// All sizes of the layout fit the 32 bits in which they are computed.
    pub open spec fn fits(size: PhysicalSize) -> bool {
        row_pitch(size.width) <= u32::MAX && row_pitch(size.width) * size.height <= u32::MAX
    }

    /// Whether an overlay of this size can be dumped.
    pub fn can_hold(size: PhysicalSize) -> (fits: bool)
        ensures
            fits == DumpLayout::fits(size),
    {
        let pitch: u64 = (4 * (size.width as u64) + 255) / 256 * 256;
        assert(pitch == row_pitch(size.width));
        if pitch > u32::MAX as u64 {
            return false;
        }
        assert(pitch * size.height <= u32::MAX * u32::MAX) by (nonlinear_arith)
            requires
                pitch <= u32::MAX,
                size.height <= u32::MAX,
        ;
        pitch * (size.height as u64) <= u32::MAX as u64
    }

    /// The layout of an overlay of this size.
    pub fn new(size: PhysicalSize) -> (layout: DumpLayout)
        requires
            DumpLayout::fits(size),
        ensures
            layout.bytes_per_row == row_pitch(size.width),
            layout.buffer_size == row_pitch(size.width) * size.height,
    {
        let row: u32 = size.width * 4;
        let blocks: u32 = if row % 256 == 0 {
            row / 256
        } else {
            row / 256 + 1
        };
        assert(blocks * 256 == row_pitch(size.width));
        let bytes_per_row: u32 = blocks * 256;
        let bytes: u32 = bytes_per_row * size.height;
        DumpLayout { bytes_per_row, buffer_size: bytes as u64 }
    }
}

/// A dump of the overlay is due: it is switched on, and the counter says so.
pub open spec fn dump_due(setting: Option<&str>, counter: DumpCounter) -> bool {
    (setting matches Some(text) && text@ == "1"@) && counter.due()
}

/// How the bytes of the overlay that is offered are to lie, if it is dumped.
pub open spec fn offered_layout(
    setting: Option<&str>,
    counter: DumpCounter,
    overlay: Option<PhysicalSize>,
) -> Option<DumpLayout> {
    match overlay {
        Some(size) if dump_due(setting, counter) => Some(
            DumpLayout {
                bytes_per_row: row_pitch(size.width) as u32,
                buffer_size: (row_pitch(size.width) * size.height) as u64,
            },
        ),
        _ => None,
    }
}

/// Offers the overlay of a frame for a dump, and says how its bytes are to lie
/// if it is dumped. Only overlays that are offered while dumps are switched on
/// count.
pub fn offer_dump(
    setting: Option<&str>,
    counter: &mut DumpCounter,
    overlay: Option<PhysicalSize>,
) -> (layout: Option<DumpLayout>)
    requires
        dump_due(setting, *old(counter)) ==> (overlay matches Some(size) ==> DumpLayout::fits(
            size,
        )),
    ensures
        *final(counter) == if setting matches Some(text) && text@ == "1"@ {
            old(counter).after_offer()
        } else {
            *old(counter)
        },
        layout is Some <==> dump_due(setting, *old(counter)) && overlay is Some,
        layout matches Some(layout) ==> {
            &&& layout.bytes_per_row == row_pitch(overlay->0.width)
            &&& layout.buffer_size == row_pitch(overlay->0.width) * overlay->0.height
        },
        layout == offered_layout(setting, *old(counter), overlay),
{
    if !switched_on(setting) || !counter.offer() {
        return None;
    }
    match overlay {
        Some(size) => Some(DumpLayout::new(size)),
        None => None,
    }
}

/// Whether [`offer_dump`] can be called: a dump that is due has to fit.
pub fn can_offer_dump(
    setting: Option<&str>,
    counter: &DumpCounter,
    overlay: Option<PhysicalSize>,
) -> (can: bool)
    ensures
        can == (dump_due(setting, *counter) ==> (overlay matches Some(size) ==> DumpLayout::fits(
            size,
        ))),
{
    match overlay {
        Some(size) => !switched_on(setting) || counter.offered != DUMPED_FRAME
            || DumpLayout::can_hold(size),
        None => true,
    }
}

/// A row of a dump holds its pixels, starts at a multiple of 256 and wastes less
/// than 256 bytes.
pub proof fn law_row_pitch_is_the_least_aligned(width: u32)
    ensures
        row_pitch(width) % 256 == 0,
        4 * width <= row_pitch(width) < 4 * width + 256,
{
}

/// The overlay of a window is as wide and as high as the window, or one pixel
/// where that is empty, has the swapchain's format, and can be drawn into,
/// sampled and copied out of, and nothing else.
pub proof fn law_overlay_descriptor(size: PhysicalSize, format: TextureFormat)
    ensures
        ({
            let overlay = OverlayDescriptor::covering(size, format);
            &&& size.width > 0 ==> overlay.width == size.width
            &&& size.width == 0 ==> overlay.width == 1
            &&& size.height > 0 ==> overlay.height == size.height
            &&& size.height == 0 ==> overlay.height == 1
            &&& overlay.format == format
            &&& overlay.usage == 21
        }),
{
    assert(16u32 | 4 | 1 == 21) by (bit_vector);
}

/// A dump is due of the overlay that follows thirty others, of those that were
/// offered while dumps were switched on, and only while they are: a setting of
/// any other text than `1`, or none, switches them off.
pub proof fn law_dump_is_due_at_the_thirty_first(
    setting: Option<&str>,
    earlier_overlays: nat,
)
    requires
        earlier_overlays <= u32::MAX,
    ensures
        dump_due(setting, DumpCounter::after_offers(earlier_overlays)) <==> earlier_overlays == 30
            && setting is Some && setting->0@ == "1"@,
{
    law_dumped_once(earlier_overlays);
}

/// The count of overlays goes up by one with each, and from its largest value
/// back to zero.
pub proof fn law_overlays_are_counted(counter: DumpCounter)
    ensures
        counter.offered < u32::MAX ==> counter.after_offer().offered == counter.offered + 1,
        counter.offered == u32::MAX ==> counter.after_offer().offered == 0,
        counter.due() <==> counter.offered == 30,
{
}

/// Every overlay whose padded rows take less than four gigabytes can be dumped.
pub proof fn law_dump_fits(size: PhysicalSize, pitch: int)
    requires
        pitch % 256 == 0,
        4 * size.width <= pitch < 4 * size.width + 256,
    ensures
        row_pitch(size.width) == pitch,
        DumpLayout::fits(size) <==> pitch <= u32::MAX && pitch * size.height <= u32::MAX,
{
}

/// An overlay is dumped exactly if dumps are switched on, it is the thirty-first
/// and it exists. Its rows then start at multiples of 256, hold four bytes for
/// each pixel and waste less than 256, and the buffer holds as many of them as
/// the overlay is high.
pub proof fn law_dumped_overlay_is_laid_out(
    setting: Option<&str>,
    earlier_overlays: nat,
    overlay: Option<PhysicalSize>,
)
    requires
        earlier_overlays <= u32::MAX,
        overlay matches Some(size) ==> DumpLayout::fits(size),
    ensures
        ({
            let counter = DumpCounter::after_offers(earlier_overlays);
            let layout = offered_layout(setting, counter, overlay);
            &&& layout is Some <==> overlay is Some && earlier_overlays == 30 && setting is Some
                && setting->0@ == "1"@
            &&& layout matches Some(layout) ==> {
                &&& layout.bytes_per_row % 256 == 0
                &&& 4 * overlay->0.width <= layout.bytes_per_row < 4 * overlay->0.width + 256
                &&& layout.buffer_size == layout.bytes_per_row * overlay->0.height
            }
        }),
{
    law_dumped_once(earlier_overlays);
    if let Some(size) = overlay {
        law_row_pitch_is_the_least_aligned(size.width);
        assert(row_pitch(size.width) * size.height >= 0) by (nonlinear_arith)
            requires
                row_pitch(size.width) >= 0,
                size.height >= 0,
        ;
    }
}

} // verus!
