use vstd::prelude::*;

use crate::classify::{classify, spec_classify};
use crate::resolve::{resolve_filename, spec_resolved_name};
use crate::types::{spec_name_view, FileMeta, Format, Privacy, UploadBatch};

verus! {

/// What the pipeline decides for one attachment: skip it (empty
/// attachments are never written), or move its backing storage to the
/// given target path.
pub enum PlanItem {
    Skip,
    Store(String),
}

/// A plan item as an abstract value: `None` to skip, `Some(path)` to move.
pub open spec fn spec_plan_view(p: PlanItem) -> Option<Seq<char>> {
    match p {
        PlanItem::Skip => None,
        PlanItem::Store(s) => Some(s@),
    }
}

/// The full target path for one attachment: the upload root, the
/// classified subdirectory, then the resolved file name.
pub open spec fn spec_target_path(
    format: Format,
    privacy: Privacy,
    timestamp: nat,
    name: Option<Seq<char>>,
    index: nat,
) -> Seq<char> {
    "uploads/"@ + spec_classify(format, privacy) + "/"@ + spec_resolved_name(
        timestamp,
        name,
        index,
    )
}

/// The decision for the attachment at `index`: empty attachments are
/// skipped (their index will be reported as failed); all others are moved
/// to their classified target path.
pub open spec fn spec_plan_file(
    file: FileMeta,
    format: Format,
    privacy: Privacy,
    timestamp: nat,
    index: nat,
) -> Option<Seq<char>> {
    if file.size == 0 {
        None
    } else {
        Some(spec_target_path(format, privacy, timestamp, spec_name_view(file.name), index))
    }
}

/// Decides one attachment's disposition and derives its target path.
/// Pure: no I/O happens here; the caller performs the move.
pub fn plan_file(
    file: &FileMeta,
    format: Format,
    privacy: Privacy,
    timestamp: u128,
    index: usize,
) -> (r: PlanItem)
    ensures
        spec_plan_view(r) == spec_plan_file(*file, format, privacy, timestamp as nat, index as nat),
{
    if file.size == 0 {
        PlanItem::Skip
    } else {
        let dir: &'static str = classify(format, privacy);
        let name = resolve_filename(timestamp, &file.name, index);
        let mut path: String = "uploads/".to_owned();
        path.append(dir);
        path.append("/");
        path.append(name.as_str());
        proof {
            assert(path@ =~= spec_target_path(
                format,
                privacy,
                timestamp as nat,
                spec_name_view(file.name),
                index as nat,
            ));
        }
        PlanItem::Store(path)
    }
}

/// Plans a whole decoded batch against one shared timestamp, in
/// submission order.
pub fn plan_batch(batch: &UploadBatch, timestamp: u128) -> (r: Vec<PlanItem>)
    ensures
        r.len() == batch.files.len(),
        forall|i: int|
            0 <= i < r@.len() ==> spec_plan_view(#[trigger] r@[i]) == spec_plan_file(
                batch.files@[i],
                batch.format,
                batch.privacy,
                timestamp as nat,
                i as nat,
            ),
{
    let mut r: Vec<PlanItem> = Vec::new();
    let mut i: usize = 0;
    while i < batch.files.len()
        invariant
            i <= batch.files.len(),
            r.len() == i,
            forall|j: int|
                0 <= j < i ==> spec_plan_view(#[trigger] r@[j]) == spec_plan_file(
                    batch.files@[j],
                    batch.format,
                    batch.privacy,
                    timestamp as nat,
                    j as nat,
                ),
        decreases batch.files.len() - i,
    {
        let item = plan_file(&batch.files[i], batch.format, batch.privacy, timestamp, i);
        r.push(item);
        i = i + 1;
    }
    r
}

/// Whether the attachment at one position ends up in the error list: it
/// was skipped as empty, or its move failed.
pub open spec fn spec_move_failed(plan: Option<Seq<char>>, moved: bool) -> bool {
    plan is None || !moved
}

/// The reported error indexes over the first `n` attachments, in batch
/// order: every position that was skipped as empty or whose move failed.
pub open spec fn spec_error_indexes(
    plans: Seq<Option<Seq<char>>>,
    moved: Seq<bool>,
    n: int,
) -> Seq<int>
    decreases n,
{
    if n <= 0 {
        Seq::empty()
    } else {
        let rest = spec_error_indexes(plans, moved, n - 1);
        if spec_move_failed(plans[n - 1], moved[n - 1]) {
            rest.push(n - 1)
        } else {
            rest
        }
    }
}

/// Collects the failed indexes of a processed batch: `plan` is the
/// decision per attachment, `moved[i]` reports whether the caller's move
/// of attachment `i` succeeded (its value is irrelevant for skipped
/// attachments). Verified for every possible outcome of the moves.
pub fn collect_errors(plan: &Vec<PlanItem>, moved: &Vec<bool>) -> (r: Vec<usize>)
    requires
        plan.len() == moved.len(),
    ensures
        r@.map_values(|x: usize| x as int) == spec_error_indexes(
            plan@.map_values(|p: PlanItem| spec_plan_view(p)),
            moved@,
            plan.len() as int,
        ),
{
    let ghost plans = plan@.map_values(|p: PlanItem| spec_plan_view(p));
    let mut r: Vec<usize> = Vec::new();
    let mut i: usize = 0;
    while i < plan.len()
        invariant
            i <= plan.len(),
            plan.len() == moved.len(),
            plans == plan@.map_values(|p: PlanItem| spec_plan_view(p)),
            r@.map_values(|x: usize| x as int) == spec_error_indexes(plans, moved@, i as int),
        decreases plan.len() - i,
    {
        let failed: bool = match &plan[i] {
            PlanItem::Skip => true,
            PlanItem::Store(_) => !moved[i],
        };
        if failed {
            r.push(i);
            proof {
                assert(r@.map_values(|x: usize| x as int) =~= spec_error_indexes(
                    plans,
                    moved@,
                    i + 1,
                ));
            }
        }
        i = i + 1;
    }
    r
}

/// Law: each attachment ends in exactly one of two states — planned and
/// moved successfully, or reported in the error list — never both, never
/// neither. Membership in the reported list holds exactly of the
/// positions that were skipped as empty or whose move failed.
pub proof fn lemma_attachment_disposition(
    plans: Seq<Option<Seq<char>>>,
    moved: Seq<bool>,
    n: int,
    i: int,
)
    requires
        0 <= i < n,
    ensures
        spec_error_indexes(plans, moved, n).contains(i) == spec_move_failed(plans[i], moved[i]),
    decreases n,
{
    let errs = spec_error_indexes(plans, moved, n);
    let rest = spec_error_indexes(plans, moved, n - 1);
    lemma_error_indexes_bounded(plans, moved, n - 1);
    if i == n - 1 {
        if spec_move_failed(plans[i], moved[i]) {
            assert(errs[errs.len() - 1] == i);
        } else {
            assert(errs == rest);
        }
    } else {
        lemma_attachment_disposition(plans, moved, n - 1, i);
        if spec_move_failed(plans[n - 1], moved[n - 1]) {
            assert(rest.contains(i) ==> errs.contains(i)) by {
                if rest.contains(i) {
                    let k = choose|k: int| 0 <= k < rest.len() && rest[k] == i;
                    assert(errs[k] == i);
                }
            }
        }
    }
}

/// Every reported index over the first `n` attachments lies below `n`.
pub proof fn lemma_error_indexes_bounded(plans: Seq<Option<Seq<char>>>, moved: Seq<bool>, n: int)
    ensures
        forall|k: int|
            0 <= k < spec_error_indexes(plans, moved, n).len() ==> 0 <= #[trigger] spec_error_indexes(
                plans,
                moved,
                n,
            )[k] < n,
    decreases n,
{
    if n > 0 {
        lemma_error_indexes_bounded(plans, moved, n - 1);
        let errs = spec_error_indexes(plans, moved, n);
        let rest = spec_error_indexes(plans, moved, n - 1);
        assert forall|k: int| 0 <= k < errs.len() implies 0 <= #[trigger] errs[k] < n by {
            if spec_move_failed(plans[n - 1], moved[n - 1]) {
                if k < rest.len() {
                    assert(errs[k] == rest[k]);
                } else {
                    assert(errs[k] == n - 1);
                }
            } else {
                assert(errs[k] == rest[k]);
            }
        }
    }
}

/// Law: the reported error list is strictly increasing — failures are
/// reported in batch order, each position at most once.
pub proof fn lemma_error_indexes_sorted(plans: Seq<Option<Seq<char>>>, moved: Seq<bool>, n: int)
    ensures
        forall|j: int, k: int|
            0 <= j < k < spec_error_indexes(plans, moved, n).len() ==> spec_error_indexes(
                plans,
                moved,
                n,
            )[j] < spec_error_indexes(plans, moved, n)[k],
    decreases n,
{
    if n > 0 {
        lemma_error_indexes_sorted(plans, moved, n - 1);
        lemma_error_indexes_bounded(plans, moved, n - 1);
        let errs = spec_error_indexes(plans, moved, n);
        let rest = spec_error_indexes(plans, moved, n - 1);
        assert forall|j: int, k: int| 0 <= j < k < errs.len() implies #[trigger] errs[j] < #[trigger] errs[k] by {
            if spec_move_failed(plans[n - 1], moved[n - 1]) {
                assert(errs[j] == rest[j]);
                if k < rest.len() {
                    assert(errs[k] == rest[k]);
                } else {
                    assert(errs[k] == n - 1);
                }
            } else {
                assert(errs[j] == rest[j]);
                assert(errs[k] == rest[k]);
            }
        }
    }
}

/// Law: when every move succeeds, the reported error list holds exactly
/// the positions of the empty attachments, still in batch order.
pub proof fn lemma_faultless_errors(plans: Seq<Option<Seq<char>>>, moved: Seq<bool>, n: int)
    requires
        forall|i: int| 0 <= i < moved.len() ==> moved[i],
        0 <= n <= moved.len(),
        plans.len() == moved.len(),
    ensures
        forall|i: int|
            0 <= i < n ==> (spec_error_indexes(plans, moved, n).contains(i) == (plans[i] is None)),
{
    assert forall|i: int| 0 <= i < n implies (spec_error_indexes(plans, moved, n).contains(i) == (
    plans[i] is None)) by {
        lemma_attachment_disposition(plans, moved, n, i);
    }
}

} // verus!
