use vstd::prelude::*;

use crate::decimal::{decimal_string, is_digit_char, lemma_decimal_digits, spec_decimal};
use crate::decode::str_eq;
use crate::types::spec_name_view;

verus! {

/// What `sanitize_filename::sanitize_with_options` makes of a declared
/// name, with fixed options (no Windows-specific rules, truncation on,
/// empty replacement). The full transformation takes pages to state; this
/// names its result, which depends on the input characters alone.
pub uninterp spec fn sanitized_of(name: Seq<char>) -> Seq<char>;

/// Relies on sanitize_filename::sanitize_with_options (options fixed so the
/// result is the same on every machine): path separators, the other
/// filesystem-illegal characters and control characters are removed, and an
/// empty input has nothing left to keep.
#[verifier::external_body]
fn sanitize_name(name: &str) -> (r: String)
    ensures
        r@ == sanitized_of(name@),
        forall|i: int| 0 <= i < r@.len() ==> #[trigger] r@[i] != '/' && r@[i] != '\\',
        name@.len() == 0 ==> r@.len() == 0,
{
    sanitize_filename::sanitize_with_options(
        name,
        sanitize_filename::Options { windows: false, truncate: true, replacement: "" },
    )
}

/// The safe residual name for the attachment at `index`: the sanitized
/// declared name, unless there is none or sanitization leaves nothing
/// usable (empty, `.` or `..`), in which case the decimal index stands in.
pub open spec fn spec_safe_name(name: Option<Seq<char>>, index: nat) -> Seq<char> {
    match name {
        Some(n) => {
            let s = sanitized_of(n);
            if s.len() == 0 || s == "."@ || s == ".."@ {
                spec_decimal(index)
            } else {
                s
            }
        },
        None => spec_decimal(index),
    }
}

/// The final on-disk file name: the batch timestamp, an underscore, then
/// the safe residual name.
pub open spec fn spec_resolved_name(timestamp: nat, name: Option<Seq<char>>, index: nat) -> Seq<
    char,
> {
    spec_decimal(timestamp) + "_"@ + spec_safe_name(name, index)
}

/// Derives the on-disk name for one attachment. Pure: a function of the
/// batch timestamp, the declared name and the position alone, with no I/O.
/// The result never contains a path separator, so joining it under the
/// classified directory can never escape that directory; and it starts
/// with a timestamp digit, so it is never empty, `.` or `..`.
pub fn resolve_filename(timestamp: u128, name: &Option<String>, index: usize) -> (r: String)
    ensures
        r@ == spec_resolved_name(timestamp as nat, spec_name_view(*name), index as nat),
        forall|i: int| 0 <= i < r@.len() ==> #[trigger] r@[i] != '/' && r@[i] != '\\',
        r@.len() >= 1 && is_digit_char(r@[0]),
{
    let safe: String = match name {
        Some(n) => {
            let s = sanitize_name(n.as_str());
            if s.as_str().is_empty() || str_eq(s.as_str(), ".") || str_eq(s.as_str(), "..") {
                decimal_string(index as u128)
            } else {
                s
            }
        },
        None => decimal_string(index as u128),
    };
    let mut r = decimal_string(timestamp);
    r.append("_");
    r.append(safe.as_str());
    proof {
        reveal_strlit("_");
        lemma_decimal_digits(timestamp as nat);
        lemma_decimal_digits(index as nat);
        assert(r@ =~= spec_resolved_name(timestamp as nat, spec_name_view(*name), index as nat));
        assert forall|i: int| 0 <= i < r@.len() implies #[trigger] r@[i] != '/' && r@[i] != '\\' by {
            let ts = spec_decimal(timestamp as nat);
            let safe_s = spec_safe_name(spec_name_view(*name), index as nat);
            if i < ts.len() {
                assert(is_digit_char(ts[i]));
            } else if i == ts.len() {
            } else {
                assert(r@[i] == safe_s[i - ts.len() - 1]);
            }
        }
    }
    r
}

/// Law: the resolver is a pure function — two results derived from the
/// same timestamp, declared name and position are the same name. In
/// particular, two attachments with identical declared names that
/// sanitization leaves usable resolve to the same name whatever their
/// positions, so they collide at the path level.
pub proof fn lemma_resolver_pure(
    timestamp: nat,
    name: Option<Seq<char>>,
    index: nat,
    r1: Seq<char>,
    r2: Seq<char>,
)
    requires
        r1 == spec_resolved_name(timestamp, name, index),
        r2 == spec_resolved_name(timestamp, name, index),
    ensures
        r1 == r2,
{
}

/// Law: when a declared name sanitizes to something usable, the position
/// plays no part — duplicate declared names in one batch resolve to the
/// same final name.
pub proof fn lemma_duplicate_names_collide(timestamp: nat, n: Seq<char>, i: nat, j: nat)
    requires
        sanitized_of(n).len() > 0,
        sanitized_of(n) != "."@,
        sanitized_of(n) != ".."@,
    ensures
        spec_resolved_name(timestamp, Some(n), i) == spec_resolved_name(timestamp, Some(n), j),
{
}

} // verus!
