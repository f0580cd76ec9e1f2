use vstd::prelude::*;

use crate::types::{Format, Privacy};

verus! {

/// The fixed classification table: which storage subdirectory a batch's
/// files belong to, given the declared format and privacy.
pub open spec fn spec_classify(format: Format, privacy: Privacy) -> Seq<char> {
    match (format, privacy) {
        (Format::FormatA, Privacy::Private) => "a/private"@,
        (Format::FormatA, Privacy::Public) => "a/public"@,
        (Format::FormatB, Privacy::Private) => "b/private"@,
        (Format::FormatB, Privacy::Public) => "b/public"@,
    }
}

/// Maps the declared (format, privacy) pair to its storage subdirectory.
/// The lookup is total: every pair has a fixed cell in the table.
pub fn classify(format: Format, privacy: Privacy) -> (r: &'static str)
    ensures
        r@ == spec_classify(format, privacy),
{
    match (format, privacy) {
        (Format::FormatA, Privacy::Private) => "a/private",
        (Format::FormatA, Privacy::Public) => "a/public",
        (Format::FormatB, Privacy::Private) => "b/private",
        (Format::FormatB, Privacy::Public) => "b/public",
    }
}

/// Law: the classifier is deterministic — any two results obtained for the
/// same (format, privacy) pair name the same directory.
pub proof fn lemma_classify_deterministic(format: Format, privacy: Privacy, r1: Seq<char>, r2: Seq<char>)
    requires
        r1 == spec_classify(format, privacy),
        r2 == spec_classify(format, privacy),
    ensures
        r1 == r2,
{
}

} // verus!
