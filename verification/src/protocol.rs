//! The protocol adapter: the one seam between pixel data and the drawing
//! layer.
//!
//! The terminal is probed once, at startup, by the caller; the picker that
//! comes of the probe is handed over here. From then on the adapter answers
//! what the terminal can do and turns images into render handles. A handle is
//! opaque: the drawing layer positions it and never looks at pixels.

use vstd::prelude::*;
use crate::pixels::{is_image_shape, ProcessedImage};

verus! {

/// `ratatui_image::picker::Picker`: what a probe of the terminal found.
/// Nothing inside it is read here but through the calls below.
#[verifier::external_type_specification]
#[verifier::external_body]
pub struct ExPicker(ratatui_image::picker::Picker);

/// `ratatui_image::protocol::StatefulProtocol`: a render handle. Nothing
/// inside it is read here.
#[verifier::external_type_specification]
#[verifier::external_body]
pub struct ExStatefulProtocol(ratatui_image::protocol::StatefulProtocol);

/// The ways a terminal can show an image.
#[derive(Clone, Copy, Debug, PartialEq, Eq, Structural)]
pub enum ProtocolKind {
    /// Unicode half blocks: the fallback that every terminal can show.
    Halfblocks,
    /// Sixel graphics.
    Sixel,
    /// The kitty graphics protocol.
    Kitty,
    /// The iTerm2 inline images protocol.
    Iterm2,
}

/// `Picker::protocol_type`: the protocol that the picker settled on.
#[verifier::external_body]
fn picker_protocol_type(picker: &ratatui_image::picker::Picker) -> ProtocolKind {
    match picker.protocol_type() {
        ratatui_image::picker::ProtocolType::Halfblocks => ProtocolKind::Halfblocks,
        ratatui_image::picker::ProtocolType::Sixel => ProtocolKind::Sixel,
        ratatui_image::picker::ProtocolType::Kitty => ProtocolKind::Kitty,
        ratatui_image::picker::ProtocolType::Iterm2 => ProtocolKind::Iterm2,
    }
}

/// `Picker::font_size`: width and height of a terminal cell in pixels, as the
/// picker found or was told them.
#[verifier::external_body]
fn picker_font_size(picker: &ratatui_image::picker::Picker) -> (u16, u16) {
    picker.font_size()
}

/// `Picker::new_resize_protocol`: a stateful render handle for the image.
/// The handle is opaque, so nothing is said of it.
#[verifier::external_body]
fn picker_new_resize_protocol(
    picker: &ratatui_image::picker::Picker,
    width: u32,
    height: u32,
    rgba: &Vec<u8>,
) -> ratatui_image::protocol::StatefulProtocol
    requires
        is_image_shape(width as nat, height as nat, rgba@.len()),
{
    let img = image::RgbaImage::from_raw(width, height, rgba.clone()).unwrap();
    picker.new_resize_protocol(image::DynamicImage::ImageRgba8(img))
}

/// What the terminal can do, and the means to make render handles for it.
pub struct ProtocolAdapter {
    picker: ratatui_image::picker::Picker,
    kind: ProtocolKind,
    cell_width: u16,
    cell_height: u16,
}

impl ProtocolAdapter {
    /// The protocol in use.
    pub closed spec fn kind(&self) -> ProtocolKind {
        self.kind
    }

    /// Width and height of a terminal cell, in pixels.
    pub closed spec fn cell_size(&self) -> (u16, u16) {
        (self.cell_width, self.cell_height)
    }

    /// Whether the terminal shows images as images: any protocol but the
    /// half-block fallback.
    pub open spec fn supported(&self) -> bool {
        self.kind() != ProtocolKind::Halfblocks
    }

    /// The picker that the adapter makes its handles with.
    pub closed spec fn picker(&self) -> ratatui_image::picker::Picker {
        self.picker
    }

    /// An adapter for the terminal that `picker` was made for. The adapter
    /// keeps the picker and makes its handles with it. The protocol and the
    /// cell size are what the picker reports; the picker is opaque, so what
    /// they are is not said here.
    pub fn new(picker: ratatui_image::picker::Picker) -> (adapter: ProtocolAdapter)
        ensures
            adapter.picker() == picker,
    {
        let kind = picker_protocol_type(&picker);
        let (cell_width, cell_height) = picker_font_size(&picker);
        ProtocolAdapter { picker, kind, cell_width, cell_height }
    }

    /// The protocol in use.
    pub fn protocol_kind(&self) -> (kind: ProtocolKind)
        ensures
            kind == self.kind(),
    {
        self.kind
    }

    /// Whether the terminal shows images as images.
    pub fn is_supported(&self) -> (yes: bool)
        ensures
            yes == self.supported(),
    {
        match self.kind {
            ProtocolKind::Halfblocks => false,
            _ => true,
        }
    }

    /// The name of the protocol in use.
    pub fn protocol_name(&self) -> (name: &'static str)
        ensures
            name@ == protocol_name_of(self.kind()),
    {
        match self.kind {
            ProtocolKind::Halfblocks => "Halfblocks",
            ProtocolKind::Sixel => "Sixel",
            ProtocolKind::Kitty => "Kitty",
            ProtocolKind::Iterm2 => "iTerm2",
        }
    }

    /// Width of a terminal cell, in pixels.
    pub fn cell_width(&self) -> (w: u16)
        ensures
            w == self.cell_size().0,
    {
        self.cell_width
    }

    /// Height of a terminal cell, in pixels.
    pub fn cell_height(&self) -> (h: u16)
        ensures
            h == self.cell_size().1,
    {
        self.cell_height
    }

    /// A render handle for the image, for the protocol in use.
    pub fn make_render_handle(&self, img: &ProcessedImage) -> ratatui_image::protocol::StatefulProtocol
        requires
            img.wf(),
    {
        picker_new_resize_protocol(&self.picker, img.width(), img.height(), img.pixels())
    }
}

/// The name under which a protocol is shown to the user.
pub open spec fn protocol_name_of(kind: ProtocolKind) -> Seq<char> {
    match kind {
        ProtocolKind::Halfblocks => "Halfblocks"@,
        ProtocolKind::Sixel => "Sixel"@,
        ProtocolKind::Kitty => "Kitty"@,
        ProtocolKind::Iterm2 => "iTerm2"@,
    }
}

} // verus!
