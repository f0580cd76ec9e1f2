use vstd::prelude::*;

use crate::decimal::{decimal_string, spec_decimal};

verus! {

/// The failed indexes rendered as a comma-separated list, in the order
/// they were collected, e.g. `1, 3`.
pub open spec fn spec_index_list(errs: Seq<int>) -> Seq<char>
    decreases errs.len(),
{
    if errs.len() == 0 {
        Seq::empty()
    } else if errs.len() == 1 {
        spec_decimal(errs[0] as nat)
    } else {
        spec_index_list(errs.drop_last()) + ", "@ + spec_decimal(errs.last() as nat)
    }
}

/// The human-readable failure summary: the count of failed attachments
/// and their batch-order indexes.
pub open spec fn spec_summary(errs: Seq<int>) -> Seq<char> {
    "Error uploading "@ + spec_decimal(errs.len()) + " files with the following indexes ["@
        + spec_index_list(errs) + "]"@
}

/// Renders the failure summary for a non-empty error list; an empty list
/// means full success and carries no message.
pub fn summarize(errors: &Vec<usize>) -> (r: Option<String>)
    ensures
        (r is Some) == (errors.len() > 0),
        r matches Some(m) ==> m@ == spec_summary(errors@.map_values(|x: usize| x as int)),
{
    if errors.len() == 0 {
        return None;
    }
    let ghost errs = errors@.map_values(|x: usize| x as int);
    let mut list: String = String::new();
    let mut i: usize = 0;
    while i < errors.len()
        invariant
            1 <= errors.len(),
            i <= errors.len(),
            errs == errors@.map_values(|x: usize| x as int),
            list@ == spec_index_list(errs.take(i as int)),
        decreases errors.len() - i,
    {
        if i > 0 {
            list.append(", ");
        }
        let d = decimal_string(errors[i] as u128);
        list.append(d.as_str());
        proof {
            reveal_strlit(", ");
            let head = errs.take(i as int);
            let next = errs.take(i + 1);
            assert(next.drop_last() =~= head);
            assert(next.last() == errs[i as int]);
            if i == 0 {
                assert(list@ =~= spec_index_list(next));
            } else {
                assert(list@ =~= spec_index_list(next));
            }
        }
        i = i + 1;
    }
    let mut msg: String = "Error uploading ".to_owned();
    let count = decimal_string(errors.len() as u128);
    msg.append(count.as_str());
    msg.append(" files with the following indexes [");
    msg.append(list.as_str());
    msg.append("]");
    proof {
        assert(errs.take(errors.len() as int) =~= errs);
        assert(msg@ =~= spec_summary(errs));
    }
    Some(msg)
}

/// The aggregate result of a processed batch: full success when no index
/// failed, otherwise the failure summary as one opaque string, ready for
/// the caller to carry to the result-reporting surface.
pub fn batch_outcome(errors: &Vec<usize>) -> (r: Result<(), String>)
    ensures
        (r is Ok) == (errors.len() == 0),
        r matches Err(m) ==> m@ == spec_summary(errors@.map_values(|x: usize| x as int)),
{
    match summarize(errors) {
        None => Ok(()),
        Some(m) => Err(m),
    }
}

/// The result page endpoint: accepts the optional error summary carried
/// back by the redirect. Rendering belongs to the static surface around
/// the core, so nothing is computed here.
#[allow(unused)]
pub fn error(error: &str) {
}

} // verus!
