//! Bounded executor frames and the metadata announced before their transfer.

use vstd::prelude::*;

use crate::identity::DocumentVersion;
use crate::limits::MAX_FRAME_BYTES;
use crate::scene::{PresentationScene, PresentationSceneMetadata};

verus! {

/// Bytes of one RGBA8 pixel.
pub const RGBA8_BYTES_PER_PIXEL: usize = 4;

/// Invalid executor frame.
#[allow(inconsistent_fields)]
#[derive(Clone, Copy, Debug, PartialEq, Eq, Structural)]
pub enum EngineFrameError {
    /// Zero width or height.
    InvalidSize {
        /// Supplied width.
        width: u32,
        /// Supplied height.
        height: u32,
    },
    /// Checked RGBA8 length arithmetic overflowed.
    ByteLengthOverflow,
    /// Supplied pixel bytes do not match dimensions.
    WrongByteLength {
        /// Supplied byte count.
        actual: usize,
        /// Byte count that the dimensions ask for.
        expected: usize,
    },
    /// Frame exceeds the absolute construction cap.
    FrameTooLarge {
        /// Supplied byte count.
        actual: usize,
        /// Greatest accepted byte count.
        maximum: usize,
    },
    /// A successful pipeline result still omitted finalized text.
    PendingTextRuns {
        /// Number of runs left out.
        actual: usize,
    },
    /// The owned frame does not represent the executor-declared document.
    DocumentVersionMismatch {
        /// Version required by the executor result.
        expected: DocumentVersion,
        /// Version encoded by the frame.
        actual: DocumentVersion,
    },
    /// A caller attempted to consume pixels as a scene or a scene as pixels.
    WrongOutputKind,
}

/// RGBA8 byte length of a surface, or why it has none.
pub open spec fn rgba8_len_spec(width: u32, height: u32) -> Result<usize, EngineFrameError> {
    if width == 0 || height == 0 {
        Err(EngineFrameError::InvalidSize { width, height })
    } else if width * height * RGBA8_BYTES_PER_PIXEL > usize::MAX {
        Err(EngineFrameError::ByteLengthOverflow)
    } else {
        Ok((width * height * RGBA8_BYTES_PER_PIXEL) as usize)
    }
}

/// UI-neutral device-pixel dimensions.
#[derive(Clone, Copy, Debug, PartialEq, Eq, Structural)]
pub struct PixelSize {
    width: u32,
    height: u32,
}

impl PixelSize {
    /// Width in device pixels, in specifications.
    pub closed spec fn width_of(self) -> u32 {
        self.width
    }

    /// Height in device pixels, in specifications.
    pub closed spec fn height_of(self) -> u32 {
        self.height
    }

    #[verifier::type_invariant]
    spec fn type_inv(self) -> bool {
        rgba8_len_spec(self.width, self.height) is Ok
    }

    /// Creates nonzero dimensions with a representable RGBA8 length.
    pub fn new(width: u32, height: u32) -> (result: Result<Self, EngineFrameError>)
        ensures
            match rgba8_len_spec(width, height) {
                Ok(_) => result is Ok && result->Ok_0.width_of() == width
                    && result->Ok_0.height_of() == height,
                Err(error) => result == Err::<Self, _>(error),
            },
    {
        match rgba8_len(width, height) {
            Ok(_) => Ok(PixelSize { width, height }),
            Err(error) => Err(error),
        }
    }

    /// Width in device pixels.
    pub fn width(self) -> (width: u32)
        ensures
            width == self.width_of(),
            width != 0,
    {
        proof {
            use_type_invariant(&self);
        }
        self.width
    }

    /// Height in device pixels.
    pub fn height(self) -> (height: u32)
        ensures
            height == self.height_of(),
            height != 0,
    {
        proof {
            use_type_invariant(&self);
        }
        self.height
    }

    /// RGBA8 byte length of these dimensions; every value of the type has one.
    pub fn rgba8_len(self) -> (result: Result<usize, EngineFrameError>)
        ensures
            result == rgba8_len_spec(self.width_of(), self.height_of()),
            result is Ok,
    {
        proof {
            use_type_invariant(&self);
        }
        rgba8_len(self.width, self.height)
    }
}

/// Computes the RGBA8 byte length of a surface without wrapping.
pub fn rgba8_len(width: u32, height: u32) -> (result: Result<usize, EngineFrameError>)
    ensures
        result == rgba8_len_spec(width, height),
{
    if width == 0 || height == 0 {
        return Err(EngineFrameError::InvalidSize { width, height });
    }
    let wide: usize = width as usize;
    let high: usize = height as usize;
    let pixels: usize = match wide.checked_mul(high) {
        Some(pixels) => pixels,
        None => {
            proof {
                assert(width * height * RGBA8_BYTES_PER_PIXEL > usize::MAX) by (nonlinear_arith)
                    requires
                        width * height > usize::MAX,
                ;
            }
            return Err(EngineFrameError::ByteLengthOverflow);
        },
    };
    match pixels.checked_mul(RGBA8_BYTES_PER_PIXEL) {
        Some(bytes) => Ok(bytes),
        None => Err(EngineFrameError::ByteLengthOverflow),
    }
}

/// Metadata for top-left row-order RGBA8 bytes.
#[derive(Clone, Copy, Debug, PartialEq, Eq, Structural)]
pub struct Rgba8Metadata {
    size: PixelSize,
    stride: usize,
    byte_len: usize,
}

impl Rgba8Metadata {
    /// Dimensions, in specifications.
    pub closed spec fn size_of(self) -> PixelSize {
        self.size
    }

    /// Bytes per row, in specifications.
    pub closed spec fn stride_of(self) -> usize {
        self.stride
    }

    /// Total bytes, in specifications.
    pub closed spec fn byte_len_of(self) -> usize {
        self.byte_len
    }

    #[verifier::type_invariant]
    spec fn type_inv(self) -> bool {
        self.byte_len <= MAX_FRAME_BYTES
    }

    /// First reason to refuse `byte_len` bytes for a surface of the given
    /// dimensions.
    pub open spec fn error(size: PixelSize, byte_len: usize) -> Option<EngineFrameError> {
        match rgba8_len_spec(size.width_of(), size.height_of()) {
            Err(error) => Some(error),
            Ok(expected) => if byte_len != expected {
                Some(EngineFrameError::WrongByteLength { actual: byte_len, expected })
            } else if byte_len > MAX_FRAME_BYTES {
                Some(
                    EngineFrameError::FrameTooLarge {
                        actual: byte_len,
                        maximum: MAX_FRAME_BYTES,
                    },
                )
            } else {
                None
            },
        }
    }

    /// Accepts exactly the byte length of the dimensions, up to the frame cap.
    pub fn checked(size: PixelSize, byte_len: usize) -> (result: Result<Self, EngineFrameError>)
        ensures
            match Self::error(size, byte_len) {
                Some(error) => result == Err::<Self, _>(error),
                None => result is Ok && result->Ok_0.size_of() == size
                    && result->Ok_0.byte_len_of() == byte_len && result->Ok_0.stride_of()
                    == size.width_of() * RGBA8_BYTES_PER_PIXEL,
            },
    {
        let expected: usize = match size.rgba8_len() {
            Ok(expected) => expected,
            Err(error) => return Err(error),
        };
        if byte_len != expected {
            return Err(EngineFrameError::WrongByteLength { actual: byte_len, expected });
        }
        if byte_len > MAX_FRAME_BYTES {
            return Err(
                EngineFrameError::FrameTooLarge { actual: byte_len, maximum: MAX_FRAME_BYTES },
            );
        }
        let width: u32 = size.width();
        let height: u32 = size.height();
        proof {
            assert(width * RGBA8_BYTES_PER_PIXEL <= width * height * RGBA8_BYTES_PER_PIXEL)
                by (nonlinear_arith)
                requires
                    height >= 1,
            ;
        }
        let stride: usize = width as usize * RGBA8_BYTES_PER_PIXEL;
        Ok(Rgba8Metadata { size, stride, byte_len })
    }

    /// Device-pixel dimensions.
    pub fn size(self) -> (size: PixelSize)
        ensures
            size == self.size_of(),
    {
        self.size
    }

    /// Bytes per row.
    pub fn stride(self) -> (stride: usize)
        ensures
            stride == self.stride_of(),
    {
        self.stride
    }

    /// Total RGBA8 bytes.
    pub fn byte_len(self) -> (byte_len: usize)
        ensures
            byte_len == self.byte_len_of(),
            byte_len <= MAX_FRAME_BYTES,
    {
        proof {
            use_type_invariant(&self);
        }
        self.byte_len
    }
}

/// Fixed output metadata announced before one one-shot frame transfer.
#[derive(Clone, Copy, Debug, PartialEq, Eq, Structural)]
pub enum FrameOutputMetadata {
    /// Owned top-left row-order headless pixels.
    Rgba8(Rgba8Metadata),
    /// Renderer-neutral compiled scene plus canonical shaped text.
    Presentation(PresentationSceneMetadata),
}

/// Fixed metadata carried by a frame-ready event.
#[derive(Clone, Copy, Debug, PartialEq, Eq, Structural)]
pub struct FrameMetadata {
    /// Exact output kind and its bounded logical resource charge.
    pub output: FrameOutputMetadata,
    /// Exact document revision represented by the publication, if any.
    pub document_version: Option<DocumentVersion>,
}

impl FrameMetadata {
    /// Bytes that the frame is charged with, in specifications.
    pub open spec fn total_bytes_of(self) -> usize {
        match self.output {
            FrameOutputMetadata::Rgba8(metadata) => metadata.byte_len_of(),
            FrameOutputMetadata::Presentation(metadata) => metadata.retained_charge_bytes,
        }
    }

    /// Exact output kind and its bounded logical resource charge.
    pub fn output(self) -> (output: FrameOutputMetadata)
        ensures
            output == self.output,
    {
        self.output
    }

    /// Composed-frame RGBA8 metadata, only for the explicit headless path.
    pub fn rgba8(self) -> (metadata: Option<Rgba8Metadata>)
        ensures
            metadata == match self.output {
                FrameOutputMetadata::Rgba8(metadata) => Some(metadata),
                FrameOutputMetadata::Presentation(_) => None,
            },
    {
        match self.output {
            FrameOutputMetadata::Rgba8(metadata) => Some(metadata),
            FrameOutputMetadata::Presentation(_) => None,
        }
    }

    /// Immutable scene metadata, only for the explicit presentation path.
    pub fn presentation(self) -> (metadata: Option<PresentationSceneMetadata>)
        ensures
            metadata == match self.output {
                FrameOutputMetadata::Rgba8(_) => None,
                FrameOutputMetadata::Presentation(metadata) => Some(metadata),
            },
    {
        match self.output {
            FrameOutputMetadata::Rgba8(_) => None,
            FrameOutputMetadata::Presentation(metadata) => Some(metadata),
        }
    }

    /// Exact document revision represented by the publication, if any.
    pub fn document_version(self) -> (version: Option<DocumentVersion>)
        ensures
            version == self.document_version,
    {
        self.document_version
    }

    /// Bytes that the frame is charged with.
    pub fn total_bytes(self) -> (bytes: usize)
        ensures
            bytes == self.total_bytes_of(),
    {
        match self.output {
            FrameOutputMetadata::Rgba8(metadata) => metadata.byte_len(),
            FrameOutputMetadata::Presentation(metadata) => metadata.retained_charge_bytes(),
        }
    }
}

/// Accepts a charge up to the absolute frame cap.
pub fn checked_total_frame_bytes(metadata: FrameMetadata) -> (result: Result<
    usize,
    EngineFrameError,
>)
    ensures
        result == if metadata.total_bytes_of() > MAX_FRAME_BYTES {
            Err(
                EngineFrameError::FrameTooLarge {
                    actual: metadata.total_bytes_of(),
                    maximum: MAX_FRAME_BYTES,
                },
            )
        } else {
            Ok(metadata.total_bytes_of())
        },
{
    let total: usize = metadata.total_bytes();
    if total > MAX_FRAME_BYTES {
        return Err(EngineFrameError::FrameTooLarge { actual: total, maximum: MAX_FRAME_BYTES });
    }
    Ok(total)
}

/// One composed frame read back from the headless renderer.
#[derive(Debug)]
pub struct RgbaFrame {
    /// Surface width.
    pub width: u32,
    /// Surface height.
    pub height: u32,
    /// Top-left row-order RGBA8 bytes.
    pub pixels: Vec<u8>,
    /// Document revision that the frame represents.
    pub document_version: DocumentVersion,
    /// Text runs that the frame leaves out.
    pub pending_text_runs: usize,
}

/// First reason to refuse a headless frame as the rendering of `document_version`.
pub open spec fn headless_error(frame: RgbaFrame, document_version: DocumentVersion) -> Option<
    EngineFrameError,
> {
    if frame.pending_text_runs != 0 {
        Some(EngineFrameError::PendingTextRuns { actual: frame.pending_text_runs })
    } else if frame.document_version != document_version {
        Some(
            EngineFrameError::DocumentVersionMismatch {
                expected: document_version,
                actual: frame.document_version,
            },
        )
    } else {
        match rgba8_len_spec(frame.width, frame.height) {
            Err(error) => Some(error),
            Ok(expected) => if frame.pixels@.len() != expected {
                Some(
                    EngineFrameError::WrongByteLength {
                        actual: frame.pixels@.len() as usize,
                        expected,
                    },
                )
            } else if frame.pixels@.len() > MAX_FRAME_BYTES {
                Some(
                    EngineFrameError::FrameTooLarge {
                        actual: frame.pixels@.len() as usize,
                        maximum: MAX_FRAME_BYTES,
                    },
                )
            } else {
                None
            },
        }
    }
}

/// What a frame carries besides its metadata.
enum FramePayload {
    Headless(RgbaFrame),
    Owned(Vec<u8>),
    Presentation(PresentationScene),
}

/// UI-neutral executor result before generation-checked publication.
pub struct EngineFrame {
    metadata: FrameMetadata,
    payload: FramePayload,
}

/// What a redacted description of a frame says.
pub open spec fn redacted_frame(metadata: FrameMetadata) -> Seq<char> {
    "EngineFrame { metadata: "@ + metadata.debug_of() + ", .. }"@
}

impl EngineFrame {
    /// Fixed publication metadata, in specifications.
    pub closed spec fn metadata_of(self) -> FrameMetadata {
        self.metadata
    }

    /// Bytes that the frame is charged with.
    pub open spec fn charge(self) -> usize {
        self.metadata_of().total_bytes_of()
    }

    /// Pixels of the frame, absent for a presentation scene.
    pub closed spec fn pixels_of(self) -> Option<Seq<u8>> {
        match self.payload {
            FramePayload::Headless(frame) => Some(frame.pixels@),
            FramePayload::Owned(pixels) => Some(pixels@),
            FramePayload::Presentation(_) => None,
        }
    }

    /// Scene of the frame, absent for pixels.
    pub closed spec fn scene_of(self) -> Option<PresentationScene> {
        match self.payload {
            FramePayload::Presentation(scene) => Some(scene),
            _ => None,
        }
    }

    #[verifier::type_invariant]
    spec fn type_inv(self) -> bool {
        &&& self.metadata.total_bytes_of() <= MAX_FRAME_BYTES
        &&& self.pixels_of() matches Some(pixels) ==> self.metadata.total_bytes_of()
            == pixels.len()
        &&& self.metadata.output is Rgba8 <==> self.pixels_of() is Some
    }

    /// Description that tells the metadata, and nothing of the pixels or the
    /// scene.
    pub fn redacted(&self) -> (description: String)
        ensures
            description@ == redacted_frame(self.metadata_of()),
    {
        let mut description: String = "EngineFrame { metadata: ".to_owned();
        description.append(self.metadata.debug_text().as_str());
        description.append(", .. }");
        description
    }

    /// Creates one composed RGBA8 frame for an executor or deterministic fake.
    pub fn from_rgba8(size: PixelSize, pixels: Vec<u8>) -> (result: Result<Self, EngineFrameError>)
        ensures
            match Rgba8Metadata::error(size, pixels@.len() as usize) {
                Some(error) => result == Err::<Self, _>(error),
                None => {
                    &&& result matches Ok(frame)
                    &&& frame.metadata_of().output matches FrameOutputMetadata::Rgba8(rgba8)
                    &&& rgba8.size_of() == size
                    &&& rgba8.byte_len_of() == pixels@.len()
                    &&& rgba8.stride_of() == size.width_of() * RGBA8_BYTES_PER_PIXEL
                    &&& frame.metadata_of().document_version is None
                    &&& frame.pixels_of() == Some(pixels@)
                    &&& frame.scene_of() is None
                },
            },
    {
        let rgba8 = match Rgba8Metadata::checked(size, pixels.len()) {
            Ok(rgba8) => rgba8,
            Err(error) => return Err(error),
        };
        let metadata = FrameMetadata {
            output: FrameOutputMetadata::Rgba8(rgba8),
            document_version: None,
        };
        match checked_total_frame_bytes(metadata) {
            Ok(_) => Ok(EngineFrame { metadata, payload: FramePayload::Owned(pixels) }),
            Err(error) => Err(error),
        }
    }

    /// Creates a deterministic executor frame tied to one exact document.
    pub fn from_rgba8_for_document(
        size: PixelSize,
        pixels: Vec<u8>,
        document_version: DocumentVersion,
    ) -> (result: Result<Self, EngineFrameError>)
        ensures
            match Rgba8Metadata::error(size, pixels@.len() as usize) {
                Some(error) => result == Err::<Self, _>(error),
                None => {
                    &&& result matches Ok(frame)
                    &&& frame.metadata_of().output matches FrameOutputMetadata::Rgba8(rgba8)
                    &&& rgba8.size_of() == size
                    &&& rgba8.byte_len_of() == pixels@.len()
                    &&& rgba8.stride_of() == size.width_of() * RGBA8_BYTES_PER_PIXEL
                    &&& frame.metadata_of().document_version == Some(document_version)
                    &&& frame.pixels_of() == Some(pixels@)
                    &&& frame.scene_of() is None
                },
            },
    {
        match Self::from_rgba8(size, pixels) {
            Ok(frame) => {
                proof {
                    use_type_invariant(&frame);
                }
                Ok(
                    EngineFrame {
                        metadata: FrameMetadata {
                            output: frame.metadata.output,
                            document_version: Some(document_version),
                        },
                        payload: frame.payload,
                    },
                )
            },
            Err(error) => Err(error),
        }
    }

    /// Takes over a headless frame that leaves no text out and represents
    /// exactly `document_version`.
    pub fn from_headless(frame: RgbaFrame, document_version: DocumentVersion) -> (result: Result<
        Self,
        EngineFrameError,
    >)
        ensures
            match headless_error(frame, document_version) {
                Some(error) => result == Err::<Self, _>(error),
                None => {
                    &&& result matches Ok(owned)
                    &&& owned.metadata_of().output matches FrameOutputMetadata::Rgba8(rgba8)
                    &&& rgba8.size_of().width_of() == frame.width
                    &&& rgba8.size_of().height_of() == frame.height
                    &&& rgba8.byte_len_of() == frame.pixels@.len()
                    &&& rgba8.stride_of() == frame.width * RGBA8_BYTES_PER_PIXEL
                    &&& owned.metadata_of().document_version == Some(document_version)
                    &&& owned.pixels_of() == Some(frame.pixels@)
                    &&& owned.scene_of() is None
                },
            },
    {
        if frame.pending_text_runs != 0 {
            return Err(EngineFrameError::PendingTextRuns { actual: frame.pending_text_runs });
        }
        if frame.document_version != document_version {
            return Err(
                EngineFrameError::DocumentVersionMismatch {
                    expected: document_version,
                    actual: frame.document_version,
                },
            );
        }
        let size = match PixelSize::new(frame.width, frame.height) {
            Ok(size) => size,
            Err(error) => return Err(error),
        };
        let rgba8 = match Rgba8Metadata::checked(size, frame.pixels.len()) {
            Ok(rgba8) => rgba8,
            Err(error) => return Err(error),
        };
        let metadata = FrameMetadata {
            output: FrameOutputMetadata::Rgba8(rgba8),
            document_version: Some(document_version),
        };
        match checked_total_frame_bytes(metadata) {
            Ok(_) => Ok(EngineFrame { metadata, payload: FramePayload::Headless(frame) }),
            Err(error) => Err(error),
        }
    }

    /// Takes over a presentation scene whose charge fits one frame.
    pub fn from_presentation(scene: PresentationScene) -> (result: Result<Self, EngineFrameError>)
        ensures
            if scene.metadata.retained_charge_bytes > MAX_FRAME_BYTES {
                result == Err::<Self, _>(
                    EngineFrameError::FrameTooLarge {
                        actual: scene.metadata.retained_charge_bytes,
                        maximum: MAX_FRAME_BYTES,
                    },
                )
            } else {
                &&& result matches Ok(frame)
                &&& frame.metadata_of() == (FrameMetadata {
                    output: FrameOutputMetadata::Presentation(scene.metadata),
                    document_version: Some(scene.metadata.document_version),
                })
                &&& frame.scene_of() == Some(scene)
                &&& frame.pixels_of() is None
            },
    {
        let metadata = scene.metadata();
        let frame_metadata = FrameMetadata {
            output: FrameOutputMetadata::Presentation(metadata),
            document_version: Some(metadata.document_version()),
        };
        match checked_total_frame_bytes(frame_metadata) {
            Ok(_) => Ok(
                EngineFrame {
                    metadata: frame_metadata,
                    payload: FramePayload::Presentation(scene),
                },
            ),
            Err(error) => Err(error),
        }
    }

    /// Fixed publication metadata.
    pub fn metadata(&self) -> (metadata: FrameMetadata)
        ensures
            metadata == self.metadata_of(),
            metadata.total_bytes_of() <= MAX_FRAME_BYTES,
    {
        proof {
            use_type_invariant(self);
        }
        self.metadata
    }

    /// Exact composed RGBA8 bytes in top-left row order, absent for a
    /// presentation scene.
    pub fn rgba8_pixels(&self) -> (pixels: Option<&[u8]>)
        ensures
            match pixels {
                Some(pixels) => self.pixels_of() == Some(pixels@),
                None => self.pixels_of() is None,
            },
    {
        match &self.payload {
            FramePayload::Headless(frame) => Some(frame.pixels.as_slice()),
            FramePayload::Owned(pixels) => Some(pixels.as_slice()),
            FramePayload::Presentation(_) => None,
        }
    }

    /// Exact document revision represented by this frame, if any.
    pub fn document_version(&self) -> (version: Option<DocumentVersion>)
        ensures
            version == self.metadata_of().document_version,
    {
        self.metadata.document_version
    }

    /// Consumes the frame into its scene; pixels are refused.
    pub fn into_presentation(self) -> (result: Result<PresentationScene, EngineFrameError>)
        ensures
            result == match self.scene_of() {
                Some(scene) => Ok(scene),
                None => Err::<PresentationScene, _>(EngineFrameError::WrongOutputKind),
            },
    {
        match self.payload {
            FramePayload::Presentation(scene) => Ok(scene),
            FramePayload::Headless(_) => Err(EngineFrameError::WrongOutputKind),
            FramePayload::Owned(_) => Err(EngineFrameError::WrongOutputKind),
        }
    }
}

} // verus!
