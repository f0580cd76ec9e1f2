use vstd::prelude::*;

use crate::types::{FileMeta, Format, Privacy, UploadBatch, ValidationError};

verus! {

/// Character-for-character string comparison, so that contracts can speak
/// of the tokens a form submits.
pub fn str_eq(a: &str, b: &str) -> (r: bool)
    ensures
        r == (a@ == b@),
{
    let la: usize = a.unicode_len();
    let lb: usize = b.unicode_len();
    if la != lb {
        return false;
    }
    let mut i: usize = 0;
    while i < la
        invariant
            la == a@.len(),
            la == b@.len(),
            i <= la,
            forall|j: int| 0 <= j < i ==> a@[j] == b@[j],
        decreases la - i,
    {
        let ca: char = a.get_char(i);
        let cb: char = b.get_char(i);
        if ca != cb {
            return false;
        }
        i = i + 1;
    }
    proof {
        assert(a@ =~= b@);
    }
    true
}

/// Which privacy a submitted token declares; any other token is a decode
/// failure, never a silent default.
pub open spec fn spec_parse_privacy(token: Seq<char>) -> Result<Privacy, ValidationError> {
    if token == "can-be-public"@ {
        Ok(Privacy::Public)
    } else if token == "keep-private"@ {
        Ok(Privacy::Private)
    } else {
        Err(ValidationError::UnknownPrivacy)
    }
}

/// Which format a submitted token declares; any other token is a decode
/// failure, never a silent default.
pub open spec fn spec_parse_format(token: Seq<char>) -> Result<Format, ValidationError> {
    if token == "format-a"@ {
        Ok(Format::FormatA)
    } else if token == "format-b"@ {
        Ok(Format::FormatB)
    } else {
        Err(ValidationError::UnknownFormat)
    }
}

pub fn parse_privacy(token: &str) -> (r: Result<Privacy, ValidationError>)
    ensures
        r == spec_parse_privacy(token@),
{
    if str_eq(token, "can-be-public") {
        Ok(Privacy::Public)
    } else if str_eq(token, "keep-private") {
        Ok(Privacy::Private)
    } else {
        Err(ValidationError::UnknownPrivacy)
    }
}

pub fn parse_format(token: &str) -> (r: Result<Format, ValidationError>)
    ensures
        r == spec_parse_format(token@),
{
    if str_eq(token, "format-a") {
        Ok(Format::FormatA)
    } else if str_eq(token, "format-b") {
        Ok(Format::FormatB)
    } else {
        Err(ValidationError::UnknownFormat)
    }
}

/// The dedicated whole-submission rejection: exactly one file part, and it
/// is empty. Several empty files mixed with others are not this case; they
/// become per-file failures downstream.
pub open spec fn spec_no_files_selected(files: Seq<FileMeta>) -> bool {
    files.len() == 1 && files[0].size == 0
}

/// The first reason a submission is rejected, if any: an unrecognized
/// privacy token, then an unrecognized format token, then the single empty
/// file case. `None` means the submission decodes.
pub open spec fn spec_decode_err(
    privacy_token: Seq<char>,
    format_token: Seq<char>,
    files: Seq<FileMeta>,
) -> Option<ValidationError> {
    if spec_parse_privacy(privacy_token) is Err {
        Some(ValidationError::UnknownPrivacy)
    } else if spec_parse_format(format_token) is Err {
        Some(ValidationError::UnknownFormat)
    } else if spec_no_files_selected(files) {
        Some(ValidationError::NoFilesSelected)
    } else {
        None
    }
}

/// Decodes a submission into a typed batch, or rejects it. A pure parse:
/// no file is touched here, and a rejected submission is rejected before
/// any classification or persistence is attempted.
pub fn decode_batch(privacy_token: &str, format_token: &str, files: Vec<FileMeta>) -> (r: Result<
    UploadBatch,
    ValidationError,
>)
    ensures
        (r is Ok) == (spec_decode_err(privacy_token@, format_token@, files@) is None),
        r matches Ok(b) ==> {
            &&& Ok::<Privacy, ValidationError>(b.privacy) == spec_parse_privacy(privacy_token@)
            &&& Ok::<Format, ValidationError>(b.format) == spec_parse_format(format_token@)
            &&& b.files@ == files@
        },
        r matches Err(e) ==> Some(e) == spec_decode_err(privacy_token@, format_token@, files@),
{
    let privacy = match parse_privacy(privacy_token) {
        Ok(p) => p,
        Err(e) => {
            return Err(e);
        },
    };
    let format = match parse_format(format_token) {
        Ok(f) => f,
        Err(e) => {
            return Err(e);
        },
    };
    if files.len() == 1 && files[0].size == 0 {
        return Err(ValidationError::NoFilesSelected);
    }
    Ok(UploadBatch { files, privacy, format })
}

} // verus!
