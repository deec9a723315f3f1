//! The swapchain: its format, its size and how it presents.

use vstd::prelude::*;

verus! {

/// The format of a texture. A surface tells four of them apart.
#[derive(Debug, PartialEq, Eq)]
pub enum TextureFormat {
    Rgba8Unorm,
    Rgba8UnormSrgb,
    Bgra8Unorm,
    Bgra8UnormSrgb,
    /// Any other format, by the text in which wgpu prints it for debugging.
    Other(String),
}

impl Clone for TextureFormat {
    fn clone(&self) -> (copy: Self)
        ensures
            copy == *self,
    {
        match self {
            TextureFormat::Rgba8Unorm => TextureFormat::Rgba8Unorm,
            TextureFormat::Rgba8UnormSrgb => TextureFormat::Rgba8UnormSrgb,
            TextureFormat::Bgra8Unorm => TextureFormat::Bgra8Unorm,
            TextureFormat::Bgra8UnormSrgb => TextureFormat::Bgra8UnormSrgb,
            TextureFormat::Other(text) => TextureFormat::Other(text.clone()),
        }
    }
}

impl TextureFormat {
    /// The formats that a swapchain is given where the window offers them:
    /// eight bits in each of four channels, without an sRGB transfer function.
    pub open spec fn is_preferred(self) -> bool {
        self is Rgba8Unorm || self is Bgra8Unorm
    }

    /// The formats whose depth a surface knows: those that it tells apart.
    pub open spec fn has_known_depth(self) -> bool {
        !(self is Other)
    }

    /// The depth of a texture of this format in bits, where it is known.
    pub open spec fn depth(self) -> Option<u8> {
        if self.has_known_depth() {
            Some(32)
        } else {
            None
        }
    }

    /// The text in which wgpu prints the format for debugging.
    pub open spec fn text(self) -> Seq<char> {
        match self {
            TextureFormat::Rgba8Unorm => "Rgba8Unorm"@,
            TextureFormat::Rgba8UnormSrgb => "Rgba8UnormSrgb"@,
            TextureFormat::Bgra8Unorm => "Bgra8Unorm"@,
            TextureFormat::Bgra8UnormSrgb => "Bgra8UnormSrgb"@,
            TextureFormat::Other(text) => text@,
        }
    }

    /// The format is told apart where it can be: under `Other` stands none of
    /// the formats that have a variant of their own.
    pub open spec fn is_told_apart(self) -> bool {
        self is Other ==> {
            &&& self.text() != TextureFormat::Rgba8Unorm.text()
            &&& self.text() != TextureFormat::Rgba8UnormSrgb.text()
            &&& self.text() != TextureFormat::Bgra8Unorm.text()
            &&& self.text() != TextureFormat::Bgra8UnormSrgb.text()
        }
    }

    /// The format that wgpu prints as `text` for debugging.
    pub fn from_text(text: String) -> (format: TextureFormat)
        ensures
            format.text() == text@,
            format.is_told_apart(),
    {
        if text == "Rgba8Unorm".to_owned() {
            TextureFormat::Rgba8Unorm
        } else if text == "Rgba8UnormSrgb".to_owned() {
            TextureFormat::Rgba8UnormSrgb
        } else if text == "Bgra8Unorm".to_owned() {
            TextureFormat::Bgra8Unorm
        } else if text == "Bgra8UnormSrgb".to_owned() {
            TextureFormat::Bgra8UnormSrgb
        } else {
            TextureFormat::Other(text)
        }
    }
}

/// How a swapchain hands its frames to the display.
#[derive(Clone, Copy, Debug, PartialEq, Eq, Structural)]
pub enum PresentMode {
    AutoVsync,
    AutoNoVsync,
    Fifo,
    FifoRelaxed,
    Immediate,
    Mailbox,
}

/// A size in physical pixels.
#[derive(Clone, Copy, Debug, PartialEq, Eq, Structural)]
pub struct PhysicalSize {
    pub width: u32,
    pub height: u32,
}

/// What a swapchain is configured with.
#[derive(Debug, PartialEq, Eq)]
pub struct SurfaceConfiguration {
    pub format: TextureFormat,
    pub width: u32,
    pub height: u32,
    pub present_mode: PresentMode,
}

impl Clone for SurfaceConfiguration {
    fn clone(&self) -> (copy: Self)
        ensures
            copy == *self,
    {
        SurfaceConfiguration {
            format: self.format.clone(),
            width: self.width,
            height: self.height,
            present_mode: self.present_mode,
        }
    }
}

impl SurfaceConfiguration {
    /// The size of the swapchain.
    pub open spec fn size(self) -> PhysicalSize {
        PhysicalSize { width: self.width, height: self.height }
    }

    /// The same format at another size, paced by the display.
    pub open spec fn resized(self, size: PhysicalSize) -> SurfaceConfiguration {
        SurfaceConfiguration {
            format: self.format,
            width: size.width,
            height: size.height,
            present_mode: PresentMode::AutoVsync,
        }
    }
}

/// `index` is where the swapchain's format stands among those on offer: at the
/// first preferred one, or at the front where none is preferred.
pub open spec fn is_swapchain_format(formats: Seq<TextureFormat>, index: int) -> bool {
    &&& 0 <= index < formats.len()
    &&& forall|i: int| 0 <= i < index ==> !(#[trigger] formats[i]).is_preferred()
    &&& formats[index].is_preferred() || (index == 0 && forall|i: int|
        0 <= i < formats.len() ==> !(#[trigger] formats[i]).is_preferred())
}

/// Where the swapchain's format stands among the `formats` on offer.
pub fn choose_swapchain_format(formats: &Vec<TextureFormat>) -> (index: usize)
    requires
        formats.len() > 0,
    ensures
        is_swapchain_format(formats@, index as int),
        index < formats.len(),
        formats[index as int] is Rgba8Unorm || formats[index as int] is Bgra8Unorm || index == 0,
        forall|i: int|
            0 <= i < formats.len() && (formats[i] is Rgba8Unorm || formats[i] is Bgra8Unorm)
                ==> index <= i && (formats[index as int] is Rgba8Unorm
                || formats[index as int] is Bgra8Unorm),
{
    let mut index: usize = 0;
    while index < formats.len()
        invariant
            index <= formats.len(),
            forall|i: int| 0 <= i < index ==> !(#[trigger] formats[i]).is_preferred(),
            forall|i: int|
                0 <= i < index ==> !(#[trigger] formats[i] is Rgba8Unorm) && !(
                formats[i] is Bgra8Unorm),
        decreases formats.len() - index,
    {
        match &formats[index] {
            TextureFormat::Rgba8Unorm | TextureFormat::Bgra8Unorm => {
                return index;
            },
            _ => {},
        }
        index = index + 1;
    }
    0
}

/// `config` is the first configuration of a swapchain, made from the one that
/// the window proposes and from the formats that it offers.
pub open spec fn is_initial_configuration(
    config: SurfaceConfiguration,
    proposed: SurfaceConfiguration,
    formats: Seq<TextureFormat>,
) -> bool {
    &&& config.size() == proposed.size()
    &&& config.present_mode is AutoVsync
    &&& exists|index: int| #[trigger]
        is_swapchain_format(formats, index) && config.format == formats[index]
}

/// The first configuration of a swapchain, made from the one that the window
/// proposes and from the formats that it offers.
pub fn initial_configuration(
    proposed: SurfaceConfiguration,
    formats: &Vec<TextureFormat>,
) -> (config: SurfaceConfiguration)
    requires
        formats.len() > 0,
    ensures
        is_initial_configuration(config, proposed, formats@),
        config.width == proposed.width,
        config.height == proposed.height,
        config.present_mode is AutoVsync,
        forall|i: int|
            0 <= i < formats.len() && (#[trigger] formats[i] is Rgba8Unorm
                || formats[i] is Bgra8Unorm) ==> config.format is Rgba8Unorm
                || config.format is Bgra8Unorm,
{
    let index: usize = choose_swapchain_format(formats);
    assert(is_swapchain_format(formats@, index as int));
    SurfaceConfiguration {
        format: formats[index].clone(),
        width: proposed.width,
        height: proposed.height,
        present_mode: PresentMode::AutoVsync,
    }
}

/// The list of formats decides which one the swapchain gets: there is exactly
/// one place at which its format stands.
pub proof fn law_swapchain_format_is_determined(formats: Seq<TextureFormat>)
    requires
        formats.len() > 0,
    ensures
        exists|index: int| #[trigger] is_swapchain_format(formats, index),
        forall|i: int, j: int| #[trigger]
            is_swapchain_format(formats, i) && #[trigger] is_swapchain_format(formats, j) ==> i == j,
{
    lemma_first_preferred(formats, 0);
}

/// From `start` on there is a first preferred format, or there is none.
proof fn lemma_first_preferred(formats: Seq<TextureFormat>, start: int)
    requires
        formats.len() > 0,
        0 <= start <= formats.len(),
        forall|i: int| 0 <= i < start ==> !(#[trigger] formats[i]).is_preferred(),
    ensures
        exists|index: int| #[trigger] is_swapchain_format(formats, index),
    decreases formats.len() - start,
{
    if start == formats.len() {
        assert(is_swapchain_format(formats, 0));
    } else if formats[start].is_preferred() {
        assert(is_swapchain_format(formats, start));
    } else {
        lemma_first_preferred(formats, start + 1);
    }
}

/// The text of a format tells which it is: two formats that are told apart
/// where they can be have the same text only if both are the same one, or both
/// are of those that go by their text.
pub proof fn law_text_tells_formats_apart(format: TextureFormat, other: TextureFormat)
    requires
        format.is_told_apart(),
        other.is_told_apart(),
        format.text() == other.text(),
    ensures
        format == other || (format is Other && other is Other),
        format.has_known_depth() == other.has_known_depth(),
        format.is_preferred() == other.is_preferred(),
{
    reveal_strlit("Rgba8Unorm");
    reveal_strlit("Rgba8UnormSrgb");
    reveal_strlit("Bgra8Unorm");
    reveal_strlit("Bgra8UnormSrgb");
    assert("Rgba8Unorm"@[0] != "Bgra8Unorm"@[0]);
    assert("Rgba8UnormSrgb"@[0] != "Bgra8UnormSrgb"@[0]);
    assert("Rgba8Unorm"@.len() != "Rgba8UnormSrgb"@.len());
    assert("Rgba8Unorm"@.len() != "Bgra8UnormSrgb"@.len());
    assert("Bgra8Unorm"@.len() != "Rgba8UnormSrgb"@.len());
    assert("Bgra8Unorm"@.len() != "Bgra8UnormSrgb"@.len());
}

/// Where the window offers a preferred format, the swapchain gets one whose
/// depth is known.
pub proof fn law_preferred_format_has_known_depth(formats: Seq<TextureFormat>, index: int, i: int)
    requires
        is_swapchain_format(formats, index),
        0 <= i < formats.len(),
        formats[i].is_preferred(),
    ensures
        formats[index].is_preferred(),
        formats[index].has_known_depth(),
{
}

/// A swapchain starts out as it would have come out of a change of size: the
/// configuration made at first for one size, resized, is the one that would
/// have been made at first for the other.
pub proof fn law_initial_configuration_is_resized(
    formats: Seq<TextureFormat>,
    proposed: SurfaceConfiguration,
    config: SurfaceConfiguration,
    other_proposed: SurfaceConfiguration,
    other: SurfaceConfiguration,
)
    requires
        is_initial_configuration(config, proposed, formats),
        is_initial_configuration(other, other_proposed, formats),
    ensures
        config.resized(other_proposed.size()) == other,
{
    law_swapchain_format_is_determined(formats);
}

/// The swapchain gets the first format on offer that is `Rgba8Unorm` or
/// `Bgra8Unorm`, and the first of all where neither is on offer.
pub proof fn law_first_plain_format_is_chosen(formats: Seq<TextureFormat>, index: int)
    requires
        is_swapchain_format(formats, index),
    ensures
        0 <= index < formats.len(),
        forall|i: int|
            0 <= i < index ==> !(#[trigger] formats[i] is Rgba8Unorm) && !(formats[i] is Bgra8Unorm),
        formats[index] is Rgba8Unorm || formats[index] is Bgra8Unorm || (index == 0 && forall|
            i: int,
        |
            0 <= i < formats.len() ==> !(#[trigger] formats[i] is Rgba8Unorm) && !(
            formats[i] is Bgra8Unorm)),
{
    assert forall|i: int| 0 <= i < index implies !(#[trigger] formats[i] is Rgba8Unorm) && !(
    formats[i] is Bgra8Unorm) by {
        assert(!formats[i].is_preferred());
    }
    if !formats[index].is_preferred() {
        assert forall|i: int| 0 <= i < formats.len() implies !(#[trigger] formats[i] is Rgba8Unorm)
            && !(formats[i] is Bgra8Unorm) by {
            assert(!formats[i].is_preferred());
        }
    }
}

/// A window that offers a plain format anywhere gets a plain one.
pub proof fn law_plain_format_on_offer_is_taken(
    formats: Seq<TextureFormat>,
    proposed: SurfaceConfiguration,
    config: SurfaceConfiguration,
    i: int,
)
    requires
        is_initial_configuration(config, proposed, formats),
        0 <= i < formats.len(),
        formats[i] is Rgba8Unorm || formats[i] is Bgra8Unorm,
    ensures
        config.format is Rgba8Unorm || config.format is Bgra8Unorm,
{
    let index = choose|index: int| #[trigger]
        is_swapchain_format(formats, index) && config.format == formats[index];
    law_first_plain_format_is_chosen(formats, index);
}

/// The first configuration has the size that the window proposes, a format that
/// it offers, and is paced by the display, whatever the window proposes.
pub proof fn law_initial_configuration(
    formats: Seq<TextureFormat>,
    proposed: SurfaceConfiguration,
    config: SurfaceConfiguration,
)
    requires
        is_initial_configuration(config, proposed, formats),
    ensures
        config.width == proposed.width,
        config.height == proposed.height,
        config.present_mode is AutoVsync,
        exists|i: int| 0 <= i < formats.len() && config.format == #[trigger] formats[i],
{
    let index = choose|index: int| #[trigger]
        is_swapchain_format(formats, index) && config.format == formats[index];
    assert(config.format == formats[index]);
}

/// A configuration that is resized has the new width and height, is paced by the
/// display and keeps its format; a size is a width and a height.
pub proof fn law_resized_configuration(config: SurfaceConfiguration, size: PhysicalSize)
    ensures
        config.resized(size).width == size.width,
        config.resized(size).height == size.height,
        config.resized(size).present_mode is AutoVsync,
        config.resized(size).format == config.format,
        config.size() == size <==> config.width == size.width && config.height == size.height,
{
}

/// The formats that have a variant of their own are found by the names that wgpu
/// gives them, and every other text is kept as it is.
pub proof fn law_format_names(format: TextureFormat)
    requires
        format.is_told_apart(),
    ensures
        format is Rgba8Unorm <==> format.text() == "Rgba8Unorm"@,
        format is Rgba8UnormSrgb <==> format.text() == "Rgba8UnormSrgb"@,
        format is Bgra8Unorm <==> format.text() == "Bgra8Unorm"@,
        format is Bgra8UnormSrgb <==> format.text() == "Bgra8UnormSrgb"@,
        format matches TextureFormat::Other(text) ==> format.text() == text@,
        format.has_known_depth() <==> format is Rgba8Unorm || format is Rgba8UnormSrgb
            || format is Bgra8Unorm || format is Bgra8UnormSrgb,
{
    law_text_tells_formats_apart(format, format);
    reveal_strlit("Rgba8Unorm");
    reveal_strlit("Rgba8UnormSrgb");
    reveal_strlit("Bgra8Unorm");
    reveal_strlit("Bgra8UnormSrgb");
    assert("Rgba8Unorm"@[0] != "Bgra8Unorm"@[0]);
    assert("Rgba8UnormSrgb"@[0] != "Bgra8UnormSrgb"@[0]);
    assert("Rgba8Unorm"@.len() != "Rgba8UnormSrgb"@.len());
    assert("Rgba8Unorm"@.len() != "Bgra8UnormSrgb"@.len());
    assert("Bgra8Unorm"@.len() != "Rgba8UnormSrgb"@.len());
    assert("Bgra8Unorm"@.len() != "Bgra8UnormSrgb"@.len());
}

/// The format of the first configuration is the one at `i`, where that is the
/// first on offer that is `Rgba8Unorm` or `Bgra8Unorm`, or the first of all and
/// neither is on offer.
pub proof fn law_format_of_the_first_configuration(
    formats: Seq<TextureFormat>,
    proposed: SurfaceConfiguration,
    config: SurfaceConfiguration,
    i: int,
)
    requires
        is_initial_configuration(config, proposed, formats),
        0 <= i < formats.len(),
        forall|j: int|
            0 <= j < i ==> !(#[trigger] formats[j] is Rgba8Unorm) && !(formats[j] is Bgra8Unorm),
        formats[i] is Rgba8Unorm || formats[i] is Bgra8Unorm || (i == 0 && forall|j: int|
            0 <= j < formats.len() ==> !(#[trigger] formats[j] is Rgba8Unorm) && !(
            formats[j] is Bgra8Unorm)),
    ensures
        config.format == formats[i],
{
    let index = choose|index: int| #[trigger]
        is_swapchain_format(formats, index) && config.format == formats[index];
    law_first_plain_format_is_chosen(formats, index);
    assert(config.format == formats[index]);
    if i < index {
        assert(!(formats[i] is Rgba8Unorm) && !(formats[i] is Bgra8Unorm));
    }
}

/// A format has four channels of eight bits, with an sRGB transfer function or
/// without, or its depth is not known.
pub proof fn law_depth_of_each_format(text: String)
    ensures
        TextureFormat::Rgba8Unorm.depth() == Some(32u8),
        TextureFormat::Rgba8UnormSrgb.depth() == Some(32u8),
        TextureFormat::Bgra8Unorm.depth() == Some(32u8),
        TextureFormat::Bgra8UnormSrgb.depth() == Some(32u8),
        TextureFormat::Other(text).depth() is None,
{
}

} // verus!
