use vstd::prelude::*;

verus! {

/// Progress of a DjVu decoding job.
#[derive(Debug, Copy, Clone, PartialEq, Eq, Structural)]
#[allow(non_camel_case_types)]
pub enum JobStatus {
    /// The operation was not even started.
    DDJVU_JOB_NOTSTARTED,
    /// The operation is in progress.
    DDJVU_JOB_STARTED,
    /// The operation terminated successfully.
    DDJVU_JOB_OK,
    /// The operation failed because of an error.
    DDJVU_JOB_FAILED,
    /// The operation was interrupted by the user.
    DDJVU_JOB_STOPPED,
}

impl JobStatus {
    /// The job has come to an end, well or not.
    pub open spec fn spec_is_finished(self) -> bool {
        self is DDJVU_JOB_OK || self is DDJVU_JOB_FAILED || self is DDJVU_JOB_STOPPED
    }

    /// Whether the job has come to an end, well or not.
    pub fn is_finished(self) -> (r: bool)
        ensures
            r == self.spec_is_finished(),
    {
        match self {
            JobStatus::DDJVU_JOB_OK | JobStatus::DDJVU_JOB_FAILED | JobStatus::DDJVU_JOB_STOPPED => true,
            _ => false,
        }
    }
}

/// Kind of a message posted by the DjVu decoder.
#[derive(Debug, Copy, Clone, PartialEq, Eq, Structural)]
#[allow(non_camel_case_types)]
pub enum MessageTag {
    DDJVU_ERROR,
    DDJVU_INFO,
    DDJVU_NEWSTREAM,
    DDJVU_DOCINFO,
    DDJVU_PAGEINFO,
    DDJVU_RELAYOUT,
    DDJVU_REDISPLAY,
    DDJVU_CHUNK,
    DDJVU_THUMBNAIL,
    DDJVU_PROGRESS,
}

/// Pixel layout of a rendered DjVu page.
#[derive(Debug, Copy, Clone, PartialEq, Eq, Structural)]
#[allow(non_camel_case_types)]
pub enum FormatStyle {
    /// Truecolor 24 bits in BGR order.
    DDJVU_FORMAT_BGR24,
    /// Truecolor 24 bits in RGB order.
    DDJVU_FORMAT_RGB24,
    /// Truecolor 16 bits with masks.
    DDJVU_FORMAT_RGBMASK16,
    /// Truecolor 32 bits with masks.
    DDJVU_FORMAT_RGBMASK32,
    /// Grey levels on 8 bits.
    DDJVU_FORMAT_GREY8,
    /// Paletted 8 bits (6x6x6 color cube).
    DDJVU_FORMAT_PALETTE8,
    /// Packed bits, most significant on the left.
    DDJVU_FORMAT_MSBTOLSB,
    /// Packed bits, least significant on the left.
    DDJVU_FORMAT_LSBTOMSB,
}

/// Which layers of a DjVu page to render.
#[derive(Debug, Copy, Clone, PartialEq, Eq, Structural)]
#[allow(non_camel_case_types)]
pub enum RenderMode {
    /// Color page or stencil.
    DDJVU_RENDER_COLOR,
    /// Stencil or color page.
    DDJVU_RENDER_BLACK,
    /// Color page or fail.
    DDJVU_RENDER_COLORONLY,
    /// Stencil or fail.
    DDJVU_RENDER_MASKONLY,
    /// Color background layer.
    DDJVU_RENDER_BACKGROUND,
    /// Color foreground layer.
    DDJVU_RENDER_FOREGROUND,
}

/// Opaque decoder context handle.
pub enum ExoContext {
    Opaque,
}

/// Opaque document handle.
pub enum ExoDocument {
    Opaque,
}

/// Opaque pixel format handle.
pub enum ExoFormat {
    Opaque,
}

/// Opaque decoding job handle.
pub enum ExoJob {
    Opaque,
}

/// Opaque page handle.
pub enum ExoPage {
    Opaque,
}

/// Opaque S-expression handle.
pub enum MiniExp {
    Opaque,
}

} // verus!
