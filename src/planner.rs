//! The batch planner: partitions a classified batch into single and grouped sends.
use vstd::prelude::*;
use crate::media::MediaKind;

verus! {

/// The largest number of items that one group send may carry.
pub const MAX_GROUP: usize = 10;

/// One unit of dispatch, over positions in the batch.
#[derive(PartialEq, Eq, Structural, Clone, Copy, Debug)]
pub enum PlanStep {
    /// One item sent on its own.
    Single { index: usize },
    /// The items at positions `start .. end`, sent as one album.
    Group { start: usize, end: usize },
}

/// Whether a step lies within a batch of `n` items.
pub open spec fn step_in_batch(step: PlanStep, n: int) -> bool {
    match step {
        PlanStep::Single { index } => index < n,
        PlanStep::Group { start, end } => start < end <= n,
    }
}

/// Two kinds belong to the same class when both are documents or neither is.
pub open spec fn same_class(a: MediaKind, b: MediaKind) -> bool {
    a.spec_is_document() == b.spec_is_document()
}

/// Scans forward from `j` while the items keep the class of the item at `i`,
/// stopping at the end of the batch or after `MAX_GROUP` items.
pub open spec fn scan_run(kinds: Seq<MediaKind>, i: int, j: int) -> int
    decreases i + MAX_GROUP - j,
{
    if j >= kinds.len() || j >= i + MAX_GROUP || !same_class(kinds[j], kinds[i]) {
        j
    } else {
        scan_run(kinds, i, j + 1)
    }
}

/// The end of the run that starts at `i`: the maximal stretch of items of one
/// class, capped at `MAX_GROUP` items.
pub open spec fn run_end(kinds: Seq<MediaKind>, i: int) -> int {
    scan_run(kinds, i, i + 1)
}

/// One single send for each position in `start .. end`.
pub open spec fn singles(start: int, end: int) -> Seq<PlanStep> {
    Seq::new((end - start) as nat, |j: int| PlanStep::Single { index: (start + j) as usize })
}

/// The plan for the items from position `i` on: each run becomes one group,
/// unless grouping is switched off or the run holds a single item, in which
/// case each of its items is sent on its own.
pub open spec fn plan_from(kinds: Seq<MediaKind>, no_group: bool, i: int) -> Seq<PlanStep>
    decreases kinds.len() - i,
{
    if i < 0 || i >= kinds.len() {
        Seq::empty()
    } else {
        let e = run_end(kinds, i);
        if e <= i || e > kinds.len() {
            Seq::empty()
        } else {
            let here = if no_group || e == i + 1 {
                singles(i, e)
            } else {
                seq![PlanStep::Group { start: i as usize, end: e as usize }]
            };
            here + plan_from(kinds, no_group, e)
        }
    }
}

/// The plan for a whole batch.
pub open spec fn spec_plan(kinds: Seq<MediaKind>, no_group: bool) -> Seq<PlanStep> {
    plan_from(kinds, no_group, 0)
}

proof fn lemma_scan_run_bounds(kinds: Seq<MediaKind>, i: int, j: int)
    requires
        0 <= i < j <= kinds.len(),
        j <= i + MAX_GROUP,
        forall|m: int| i <= m < j ==> same_class(#[trigger] kinds[m], kinds[i]),
    ensures
        j <= scan_run(kinds, i, j) <= kinds.len(),
        scan_run(kinds, i, j) <= i + MAX_GROUP,
        forall|m: int| i <= m < scan_run(kinds, i, j) ==> same_class(#[trigger] kinds[m], kinds[i]),
        scan_run(kinds, i, j) < kinds.len() && scan_run(kinds, i, j) < i + MAX_GROUP
            ==> !same_class(kinds[scan_run(kinds, i, j)], kinds[i]),
    decreases i + MAX_GROUP - j,
{
    if j >= kinds.len() || j >= i + MAX_GROUP || !same_class(kinds[j], kinds[i]) {
    } else {
        lemma_scan_run_bounds(kinds, i, j + 1);
    }
}

/// What a run is: it starts at `i`, ends after at most `MAX_GROUP` items,
/// keeps one class throughout, and stops only at the end of the batch, at the
/// cap, or before an item of the other class.
pub proof fn lemma_run_end(kinds: Seq<MediaKind>, i: int)
    requires
        0 <= i < kinds.len(),
    ensures
        i < run_end(kinds, i) <= kinds.len(),
        run_end(kinds, i) <= i + MAX_GROUP,
        forall|m: int| i <= m < run_end(kinds, i) ==> same_class(#[trigger] kinds[m], kinds[i]),
        run_end(kinds, i) < kinds.len() && run_end(kinds, i) < i + MAX_GROUP
            ==> !same_class(kinds[run_end(kinds, i)], kinds[i]),
{
    lemma_scan_run_bounds(kinds, i, i + 1);
}

/// The positions that one step sends, in order.
pub open spec fn step_positions(t: PlanStep) -> Seq<int> {
    match t {
        PlanStep::Single { index } => seq![index as int],
        PlanStep::Group { start, end } => positions(start as int, end as int),
    }
}

/// The positions `start .. end` in increasing order.
pub open spec fn positions(start: int, end: int) -> Seq<int> {
    Seq::new((end - start) as nat, |j: int| start + j)
}

/// The positions that a sequence of steps sends, step after step.
pub open spec fn flatten(steps: Seq<PlanStep>) -> Seq<int>
    decreases steps.len(),
{
    if steps.len() == 0 {
        Seq::empty()
    } else {
        step_positions(steps[0]) + flatten(steps.drop_first())
    }
}

/// Whether a step is well formed within a batch of `n` items from position `lo` on.
pub open spec fn step_within(kinds: Seq<MediaKind>, lo: int, t: PlanStep) -> bool {
    match t {
        PlanStep::Single { index } => lo <= index < kinds.len(),
        PlanStep::Group { start, end } => {
            &&& lo <= start
            &&& end <= kinds.len()
            &&& 2 <= end - start <= MAX_GROUP
            &&& forall|m: int| start <= m < end ==> same_class(#[trigger] kinds[m], kinds[start as int])
        },
    }
}

proof fn lemma_plan_from_shape(kinds: Seq<MediaKind>, no_group: bool, i: int)
    requires
        0 <= i <= kinds.len(),
        kinds.len() <= usize::MAX,
    ensures
        forall|t: int|
            0 <= t < plan_from(kinds, no_group, i).len() ==> step_within(
                kinds,
                i,
                #[trigger] plan_from(kinds, no_group, i)[t],
            ),
    decreases kinds.len() - i,
{
    if i < kinds.len() {
        lemma_run_end(kinds, i);
        let e = run_end(kinds, i);
        lemma_plan_from_shape(kinds, no_group, e);
        let rest = plan_from(kinds, no_group, e);
        let here = if no_group || e == i + 1 {
            singles(i, e)
        } else {
            seq![PlanStep::Group { start: i as usize, end: e as usize }]
        };
        assert(plan_from(kinds, no_group, i) == here + rest);
        assert forall|t: int| 0 <= t < (here + rest).len() implies step_within(
            kinds,
            i,
            #[trigger] (here + rest)[t],
        ) by {
            if t >= here.len() {
                assert((here + rest)[t] == rest[t - here.len()]);
            }
        }
    }
}

proof fn lemma_flatten_concat(a: Seq<PlanStep>, b: Seq<PlanStep>)
    ensures
        flatten(a + b) == flatten(a) + flatten(b),
    decreases a.len(),
{
    if a.len() == 0 {
        assert(a + b =~= b);
        assert(flatten(a) + flatten(b) =~= flatten(b));
    } else {
        assert((a + b).drop_first() =~= a.drop_first() + b);
        lemma_flatten_concat(a.drop_first(), b);
        assert(step_positions(a[0]) + (flatten(a.drop_first()) + flatten(b))
            =~= (step_positions(a[0]) + flatten(a.drop_first())) + flatten(b));
    }
}

proof fn lemma_flatten_singles(start: int, end: int)
    requires
        0 <= start <= end <= usize::MAX + 1,
    ensures
        flatten(singles(start, end)) == positions(start, end),
    decreases end - start,
{
    if start == end {
        assert(positions(start, end) =~= Seq::<int>::empty());
    } else {
        assert(singles(start, end).drop_first() =~= singles(start + 1, end));
        lemma_flatten_singles(start + 1, end);
        assert(seq![start] + positions(start + 1, end) =~= positions(start, end));
    }
}

proof fn lemma_flatten_plan_from(kinds: Seq<MediaKind>, no_group: bool, i: int)
    requires
        0 <= i <= kinds.len(),
        kinds.len() <= usize::MAX,
    ensures
        flatten(plan_from(kinds, no_group, i)) == positions(i, kinds.len() as int),
    decreases kinds.len() - i,
{
    if i == kinds.len() {
        assert(positions(i, kinds.len() as int) =~= Seq::<int>::empty());
    } else {
        lemma_run_end(kinds, i);
        let e = run_end(kinds, i);
        lemma_flatten_plan_from(kinds, no_group, e);
        let rest = plan_from(kinds, no_group, e);
        let here = if no_group || e == i + 1 {
            singles(i, e)
        } else {
            seq![PlanStep::Group { start: i as usize, end: e as usize }]
        };
        assert(plan_from(kinds, no_group, i) == here + rest);
        lemma_flatten_concat(here, rest);
        if no_group || e == i + 1 {
            lemma_flatten_singles(i, e);
        } else {
            assert(here.drop_first() =~= Seq::<PlanStep>::empty());
            assert(flatten(here.drop_first()) == Seq::<int>::empty());
            assert(step_positions(here[0]) == positions(i, e));
            assert(flatten(here) =~= positions(i, e));
        }
        assert(positions(i, e) + positions(e, kinds.len() as int) =~= positions(
            i,
            kinds.len() as int,
        ));
    }
}

/// Every group send holds only documents, or no document at all.
pub proof fn lemma_groups_one_class(kinds: Seq<MediaKind>, no_group: bool)
    requires
        kinds.len() <= usize::MAX,
    ensures
        forall|t: int|
            0 <= t < spec_plan(kinds, no_group).len()
                && (#[trigger] spec_plan(kinds, no_group)[t]) is Group ==> {
                let start = spec_plan(kinds, no_group)[t]->start as int;
                let end = spec_plan(kinds, no_group)[t]->end as int;
                (forall|m: int| start <= m < end ==> (#[trigger] kinds[m]).spec_is_document())
                    || (forall|m: int| start <= m < end ==> !(#[trigger] kinds[m]).spec_is_document())
            },
{
    lemma_plan_from_shape(kinds, no_group, 0);
    assert forall|t: int|
        0 <= t < spec_plan(kinds, no_group).len()
            && (#[trigger] spec_plan(kinds, no_group)[t]) is Group implies {
            let start = spec_plan(kinds, no_group)[t]->start as int;
            let end = spec_plan(kinds, no_group)[t]->end as int;
            (forall|m: int| start <= m < end ==> (#[trigger] kinds[m]).spec_is_document())
                || (forall|m: int| start <= m < end ==> !(#[trigger] kinds[m]).spec_is_document())
        } by {
        let step = spec_plan(kinds, no_group)[t];
        assert(step_within(kinds, 0, step));
    }
}

/// Every group send holds at least two and at most `MAX_GROUP` items, all
/// within the batch.
pub proof fn lemma_group_size(kinds: Seq<MediaKind>, no_group: bool)
    requires
        kinds.len() <= usize::MAX,
    ensures
        forall|t: int|
            0 <= t < spec_plan(kinds, no_group).len()
                && (#[trigger] spec_plan(kinds, no_group)[t]) is Group ==> {
                let start = spec_plan(kinds, no_group)[t]->start as int;
                let end = spec_plan(kinds, no_group)[t]->end as int;
                2 <= end - start <= MAX_GROUP && end <= kinds.len()
            },
{
    lemma_plan_from_shape(kinds, no_group, 0);
}

/// Sending the steps in order sends every item of the batch exactly once, in
/// input order.
pub proof fn lemma_plan_keeps_order(kinds: Seq<MediaKind>, no_group: bool)
    requires
        kinds.len() <= usize::MAX,
    ensures
        flatten(spec_plan(kinds, no_group)) == positions(0, kinds.len() as int),
{
    lemma_flatten_plan_from(kinds, no_group, 0);
}

/// An item whose neighbours are both of the other class, or absent, forms a
/// run of one; it is never part of a group send, whether or not grouping is
/// switched off.
pub proof fn lemma_lone_item_not_grouped(kinds: Seq<MediaKind>, no_group: bool, i: int)
    requires
        kinds.len() <= usize::MAX,
        0 <= i < kinds.len(),
        i == 0 || !same_class(kinds[i - 1], kinds[i]),
        i + 1 == kinds.len() || !same_class(kinds[i + 1], kinds[i]),
    ensures
        forall|t: int|
            0 <= t < spec_plan(kinds, no_group).len()
                && (#[trigger] spec_plan(kinds, no_group)[t]) is Group ==> !(
                spec_plan(kinds, no_group)[t]->start <= i < spec_plan(kinds, no_group)[t]->end),
{
    lemma_plan_from_shape(kinds, no_group, 0);
    assert forall|t: int|
        0 <= t < spec_plan(kinds, no_group).len()
            && (#[trigger] spec_plan(kinds, no_group)[t]) is Group implies !(
            spec_plan(kinds, no_group)[t]->start <= i < spec_plan(kinds, no_group)[t]->end) by {
        let step = spec_plan(kinds, no_group)[t];
        assert(step_within(kinds, 0, step));
        let start = step->start as int;
        let end = step->end as int;
        if start <= i < end {
            if i > start {
                assert(same_class(kinds[i - 1], kinds[start]));
                assert(same_class(kinds[i], kinds[start]));
            } else {
                assert(same_class(kinds[i + 1], kinds[start]));
            }
        }
    }
}

/// Partitions a batch, given by the kinds of its items in input order, into
/// an ordered plan of single and grouped sends.
pub fn plan(kinds: &Vec<MediaKind>, no_group: bool) -> (steps: Vec<PlanStep>)
    ensures
        steps@ == spec_plan(kinds@, no_group),
        forall|t: int| 0 <= t < steps@.len() ==> step_in_batch(#[trigger] steps@[t], kinds@.len() as int),
{
    let n = kinds.len();
    let mut steps: Vec<PlanStep> = Vec::new();
    let mut i: usize = 0;
    while i < n
        invariant
            n == kinds@.len(),
            0 <= i <= n,
            steps@ + plan_from(kinds@, no_group, i as int) == spec_plan(kinds@, no_group),
        decreases n - i,
    {
        proof {
            lemma_run_end(kinds@, i as int);
        }
        let doc = kinds[i].is_document();
        let mut e: usize = i + 1;
        while e < n && e - i < MAX_GROUP && kinds[e].is_document() == doc
            invariant
                n == kinds@.len(),
                0 <= i < e <= n,
                e <= i + MAX_GROUP,
                doc == kinds@[i as int].spec_is_document(),
                scan_run(kinds@, i as int, e as int) == run_end(kinds@, i as int),
            decreases n - e,
        {
            e = e + 1;
        }
        let ghost rest = plan_from(kinds@, no_group, e as int);
        let ghost before = steps@;
        if no_group || e == i + 1 {
            let mut j: usize = i;
            while j < e
                invariant
                    i <= j <= e <= n,
                    steps@ == before + singles(i as int, j as int),
                decreases e - j,
            {
                steps.push(PlanStep::Single { index: j });
                proof {
                    assert(singles(i as int, j as int).push(PlanStep::Single { index: j })
                        =~= singles(i as int, j + 1));
                }
                j = j + 1;
            }
            proof {
                assert(plan_from(kinds@, no_group, i as int) == singles(i as int, e as int) + rest);
                assert(before + (singles(i as int, e as int) + rest)
                    =~= (before + singles(i as int, e as int)) + rest);
            }
        } else {
            steps.push(PlanStep::Group { start: i, end: e });
            proof {
                let g = seq![PlanStep::Group { start: i, end: e }];
                assert(plan_from(kinds@, no_group, i as int) == g + rest);
                assert(before + (g + rest) =~= before.push(PlanStep::Group { start: i, end: e }) + rest);
            }
        }
        i = e;
    }
    proof {
        assert(steps@ + Seq::<PlanStep>::empty() =~= steps@);
        lemma_plan_from_shape(kinds@, no_group, 0);
        assert forall|t: int| 0 <= t < steps@.len() implies step_in_batch(#[trigger] steps@[t], kinds@.len() as int) by {
            assert(step_within(kinds@, 0, steps@[t]));
        }
    }
    steps
}

} // verus!
