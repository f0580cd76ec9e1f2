use vstd::prelude::*;

verus! {

/// Visibility chosen by the uploader for the whole batch.
#[derive(Clone, Copy, Debug, PartialEq, Eq, Structural)]
pub enum Privacy {
    Public,
    Private,
}

/// Source-format tag declared by the uploader for the whole batch.
#[derive(Clone, Copy, Debug, PartialEq, Eq, Structural)]
pub enum Format {
    FormatA,
    FormatB,
}

/// Why a submission was rejected before any file was touched.
#[derive(Clone, Copy, Debug, PartialEq, Eq, Structural)]
pub enum ValidationError {
    /// The privacy field was missing or not one of the recognized tokens.
    UnknownPrivacy,
    /// The format field was missing or not one of the recognized tokens.
    UnknownFormat,
    /// Exactly one file part was submitted and it was empty.
    NoFilesSelected,
}

/// One uploaded attachment, reduced to what the pipeline reads: the
/// client-declared name (untrusted, possibly absent) and the size in bytes.
/// The temporary backing storage stays with the caller, which performs the
/// actual move once this crate has derived the target path.
pub struct FileMeta {
    pub name: Option<String>,
    pub size: u64,
}

/// A decoded submission: the attachments in submission order plus the
/// classification fields. Immutable once decoded.
pub struct UploadBatch {
    pub files: Vec<FileMeta>,
    pub privacy: Privacy,
    pub format: Format,
}

/// The declared name of an attachment, as a sequence of characters.
pub open spec fn spec_name_view(name: Option<String>) -> Option<Seq<char>> {
    match name {
        Some(s) => Some(s@),
        None => None,
    }
}

} // verus!
