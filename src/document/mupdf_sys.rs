use vstd::prelude::*;

verus! {

/// Options of MuPDF's structured text extraction, each a bit of a flag word.
#[derive(Debug, Copy, Clone, PartialEq, Eq, Structural)]
#[allow(non_camel_case_types)]
pub enum FzTextOptionsEnum {
    FZ_STEXT_PRESERVE_LIGATURES,
    FZ_STEXT_PRESERVE_WHITESPACE,
    FZ_STEXT_PRESERVE_IMAGES,
    FZ_STEXT_INHIBIT_SPACES,
    FZ_STEXT_DEHYPHENATE,
    FZ_STEXT_PRESERVE_SPANS,
    FZ_STEXT_CLIP,
}

impl FzTextOptionsEnum {
    pub open spec fn spec_bit(self) -> u32 {
        match self {
            FzTextOptionsEnum::FZ_STEXT_PRESERVE_LIGATURES => 1,
            FzTextOptionsEnum::FZ_STEXT_PRESERVE_WHITESPACE => 2,
            FzTextOptionsEnum::FZ_STEXT_PRESERVE_IMAGES => 4,
            FzTextOptionsEnum::FZ_STEXT_INHIBIT_SPACES => 8,
            FzTextOptionsEnum::FZ_STEXT_DEHYPHENATE => 16,
            FzTextOptionsEnum::FZ_STEXT_PRESERVE_SPANS => 32,
            FzTextOptionsEnum::FZ_STEXT_CLIP => 64,
        }
    }

    /// The bit that stands for this option in MuPDF's flag word.
    pub fn bit(self) -> (r: u32)
        ensures
            r == self.spec_bit(),
    {
        match self {
            FzTextOptionsEnum::FZ_STEXT_PRESERVE_LIGATURES => 1,
            FzTextOptionsEnum::FZ_STEXT_PRESERVE_WHITESPACE => 2,
            FzTextOptionsEnum::FZ_STEXT_PRESERVE_IMAGES => 4,
            FzTextOptionsEnum::FZ_STEXT_INHIBIT_SPACES => 8,
            FzTextOptionsEnum::FZ_STEXT_DEHYPHENATE => 16,
            FzTextOptionsEnum::FZ_STEXT_PRESERVE_SPANS => 32,
            FzTextOptionsEnum::FZ_STEXT_CLIP => 64,
        }
    }
}

/// Kind of a block of structured text.
#[derive(Debug, Copy, Clone, PartialEq, Eq, Structural)]
#[allow(non_camel_case_types)]
pub enum FzTextBlockType {
    FZ_STEXT_BLOCK_TEXT,
    FZ_STEXT_BLOCK_IMAGE,
    FZ_STEXT_BLOCK_STRUCT,
    FZ_STEXT_BLOCK_VECTOR,
    FZ_STEXT_BLOCK_GRID,
}

/// How a link destination frames its target.
#[derive(Debug, Copy, Clone, PartialEq, Eq, Structural)]
#[allow(non_camel_case_types)]
pub enum FzLinkDestType {
    FZ_LINK_DEST_FIT,
    FZ_LINK_DEST_FIT_B,
    FZ_LINK_DEST_FIT_H,
    FZ_LINK_DEST_FIT_BH,
    FZ_LINK_DEST_FIT_V,
    FZ_LINK_DEST_FIT_BV,
    FZ_LINK_DEST_FIT_R,
    FZ_LINK_DEST_XYZ,
}

/// Drawing attributes of a vector block of structured text.
#[derive(Debug, Copy, Clone, PartialEq, Eq, Structural)]
pub struct FzTextBlockVector {
    pub flags: u32,
    pub argb: u32,
}

/// Opaque library context handle.
pub enum FzContext {
    Opaque,
}

/// Opaque document handle.
pub enum FzDocument {
    Opaque,
}

/// Opaque stream handle.
pub enum FzStream {
    Opaque,
}

/// Opaque memory pool handle.
pub enum FzPool {
    Opaque,
}

/// Opaque page handle.
pub enum FzPage {
    Opaque,
}

/// Opaque device handle.
pub enum FzDevice {
    Opaque,
}

/// Opaque font handle.
pub enum FzFont {
    Opaque,
}

/// Opaque colorspace handle.
pub enum FzColorspace {
    Opaque,
}

/// Opaque allocator context handle.
pub enum FzAllocContext {
    Opaque,
}

/// Opaque locks context handle.
pub enum FzLocksContext {
    Opaque,
}

/// Opaque progress cookie handle.
pub enum FzCookie {
    Opaque,
}

/// Opaque separations handle.
pub enum FzSeparations {
    Opaque,
}

/// Opaque image handle.
pub enum FzImage {
    Opaque,
}

/// Opaque pixmap handle.
pub enum FzPixmap {
    Opaque,
}

/// Opaque store drop callback.
pub enum FzStoreDropFn {
    Opaque,
}

/// Opaque store droppable callback.
pub enum FzStoreDroppableFn {
    Opaque,
}

/// Opaque link rectangle callback.
pub enum FzLinkSetRectFn {
    Opaque,
}

/// Opaque link URI callback.
pub enum FzLinkSetUriFn {
    Opaque,
}

/// Opaque link drop callback.
pub enum FzLinkDropLinkFn {
    Opaque,
}

/// Opaque structure element of structured text.
pub enum FzTextStruct {
    Opaque,
}

/// Opaque grid positions of structured text.
pub enum FzTextGridPositions {
    Opaque,
}

/// Opaque grid information of structured text.
pub enum FzTextGridInfo {
    Opaque,
}

/// Opaque pool array handle.
pub enum FzPoolArray {
    Opaque,
}

} // verus!
