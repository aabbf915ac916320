//! Recognising the format of an upload from its first bytes.

use vstd::prelude::*;
use vstd::slice::*;

verus! {

/// The image formats that an upload may have.
#[allow(clippy::upper_case_acronyms)]
#[derive(Clone, Copy, Debug, PartialEq, Eq, Structural)]
pub enum FileType {
    JPEG,
    PNG,
    WEBP,
    HEIF,
    AVIF,
}

/// A format with its usual file extension and the bytes that every file of
/// the format begins with.
#[derive(Clone, Debug)]
pub struct FileIdentification {
    pub file_type: FileType,
    pub file_extension: &'static str,
    pub file_header: Vec<u8>,
}

/// The bytes that a file of the given format begins with.
pub open spec fn header_of(file_type: FileType) -> Seq<u8> {
    match file_type {
        FileType::JPEG => seq![0xffu8, 0xd8u8, 0xffu8],
        FileType::PNG => seq![0x89u8, 0x50u8, 0x4eu8, 0x47u8, 0x0du8, 0x0au8, 0x1au8, 0x0au8],
        FileType::WEBP => seq![0x52u8, 0x49u8, 0x46u8, 0x46u8],
        FileType::HEIF => seq![
            0x00u8,
            0x00u8,
            0x00u8,
            0x18u8,
            0x66u8,
            0x74u8,
            0x79u8,
            0x70u8,
            0x68u8,
            0x65u8,
            0x69u8,
            0x63u8,
        ],
        FileType::AVIF => seq![
            0x00u8,
            0x00u8,
            0x00u8,
            0x1cu8,
            0x66u8,
            0x74u8,
            0x79u8,
            0x70u8,
            0x61u8,
            0x76u8,
            0x69u8,
            0x66u8,
        ],
    }
}

/// The usual file extension of a format.
pub open spec fn extension_of(file_type: FileType) -> Seq<char> {
    match file_type {
        FileType::JPEG => "jpg"@,
        FileType::PNG => "png"@,
        FileType::WEBP => "webp"@,
        FileType::HEIF => "heic"@,
        FileType::AVIF => "avif"@,
    }
}

/// The format of an image: the first of JPEG, PNG, WEBP, HEIF and AVIF
/// whose header the image begins with, or `None` where it begins with none.
pub open spec fn detected(image: Seq<u8>) -> Option<FileType> {
    if header_of(FileType::JPEG).is_prefix_of(image) {
        Some(FileType::JPEG)
    } else if header_of(FileType::PNG).is_prefix_of(image) {
        Some(FileType::PNG)
    } else if header_of(FileType::WEBP).is_prefix_of(image) {
        Some(FileType::WEBP)
    } else if header_of(FileType::HEIF).is_prefix_of(image) {
        Some(FileType::HEIF)
    } else if header_of(FileType::AVIF).is_prefix_of(image) {
        Some(FileType::AVIF)
    } else {
        None
    }
}

/// Tells whether `bytes` begins with `prefix`.
pub fn bytes_start_with(bytes: &[u8], prefix: &Vec<u8>) -> (r: bool)
    ensures
        r == prefix@.is_prefix_of(bytes@),
{
    let n: usize = prefix.len();
    if n > bytes.len() {
        return false;
    }
    let mut i: usize = 0;
    while i < n
        invariant
            n == prefix@.len(),
            n <= bytes@.len(),
            i <= n,
            forall|k: int| 0 <= k < i ==> bytes@[k] == prefix@[k],
        decreases n - i,
    {
        if bytes[i] != prefix[i] {
            assert(bytes@.subrange(0, n as int)[i as int] != prefix@[i as int]);
            return false;
        }
        i += 1;
    }
    assert(prefix@ =~= bytes@.subrange(0, n as int));
    true
}

impl FileType {
    /// The bytes that a file of this format begins with.
    pub fn header(&self) -> (r: Vec<u8>)
        ensures
            r@ == header_of(*self),
    {
        let r: Vec<u8> = match self {
            FileType::JPEG => vec![0xffu8, 0xd8u8, 0xffu8],
            FileType::PNG => vec![0x89u8, 0x50u8, 0x4eu8, 0x47u8, 0x0du8, 0x0au8, 0x1au8, 0x0au8],
            FileType::WEBP => vec![0x52u8, 0x49u8, 0x46u8, 0x46u8],
            FileType::HEIF => vec![
                0x00u8,
                0x00u8,
                0x00u8,
                0x18u8,
                0x66u8,
                0x74u8,
                0x79u8,
                0x70u8,
                0x68u8,
                0x65u8,
                0x69u8,
                0x63u8,
            ],
            FileType::AVIF => vec![
                0x00u8,
                0x00u8,
                0x00u8,
                0x1cu8,
                0x66u8,
                0x74u8,
                0x79u8,
                0x70u8,
                0x61u8,
                0x76u8,
                0x69u8,
                0x66u8,
            ],
        };
        assert(r@ =~= header_of(*self));
        r
    }

    /// The usual file extension of this format.
    pub fn extension(&self) -> (r: &'static str)
        ensures
            r@ == extension_of(*self),
    {
        match self {
            FileType::JPEG => "jpg",
            FileType::PNG => "png",
            FileType::WEBP => "webp",
            FileType::HEIF => "heic",
            FileType::AVIF => "avif",
        }
    }

    /// What identifies this format.
    pub fn identification(&self) -> (r: FileIdentification)
        ensures
            r.file_type == *self,
            r.file_extension@ == extension_of(*self),
            r.file_header@ == header_of(*self),
    {
        FileIdentification {
            file_type: *self,
            file_extension: self.extension(),
            file_header: self.header(),
        }
    }

    /// Tells whether `image` begins with the header of this format.
    pub fn matches_header(&self, image: &[u8]) -> (r: bool)
        ensures
            r == header_of(*self).is_prefix_of(image@),
    {
        let header: Vec<u8> = self.header();
        bytes_start_with(image, &header)
    }
}

/// Recognises the format of an image from its first bytes.
pub fn determine_file_type(image: &[u8]) -> (r: Option<FileIdentification>)
    ensures
        match detected(image@) {
            Some(file_type) => r is Some && r->Some_0.file_type == file_type
                && r->Some_0.file_extension@ == extension_of(file_type) && r->Some_0.file_header@
                == header_of(file_type),
            None => r is None,
        },
{
    if FileType::JPEG.matches_header(image) {
        Some(FileType::JPEG.identification())
    } else if FileType::PNG.matches_header(image) {
        Some(FileType::PNG.identification())
    } else if FileType::WEBP.matches_header(image) {
        Some(FileType::WEBP.identification())
    } else if FileType::HEIF.matches_header(image) {
        Some(FileType::HEIF.identification())
    } else if FileType::AVIF.matches_header(image) {
        Some(FileType::AVIF.identification())
    } else {
        None
    }
}

} // verus!
