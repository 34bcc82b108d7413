//! Speech attributed text: the byte range that the selected spans of a
//! flattened transcript cover.
use vstd::prelude::*;

verus! {

/// Whether the span at `i` is selected.
pub open spec fn selected(spans: Seq<(usize, usize, bool)>, i: int) -> bool {
    spans[i].2
}

/// The byte range from the start of the first selected span to the
/// furthest end of any selected span, or nothing when no span is
/// selected. Each span is `(start, end, selected)`.
pub fn range_of_selected_spans(spans: &[(usize, usize, bool)]) -> (r: Option<(usize, usize)>)
    ensures
        r is None <==> (forall|i: int| 0 <= i < spans@.len() ==> !#[trigger] selected(spans@, i)),
        r matches Some(range) ==> exists|f: int| {
            &&& 0 <= f < spans@.len()
            &&& #[trigger] selected(spans@, f)
            &&& forall|j: int| 0 <= j < f ==> !#[trigger] selected(spans@, j)
            &&& range.0 == spans@[f].0
        },
        r matches Some(range) ==> forall|j: int| 0 <= j < spans@.len() && #[trigger] selected(spans@, j) ==> spans@[j].1 <= range.1,
        r matches Some(range) ==> exists|j: int| 0 <= j < spans@.len() && #[trigger] selected(spans@, j) && spans@[j].1 == range.1,
{
    let mut i: usize = 0;
    while i < spans.len()
        invariant
            i <= spans@.len(),
            forall|j: int| 0 <= j < i ==> !#[trigger] selected(spans@, j),
        ensures
            i <= spans@.len(),
            forall|j: int| 0 <= j < i ==> !#[trigger] selected(spans@, j),
            i < spans@.len() ==> selected(spans@, i as int),
        decreases spans@.len() - i,
    {
        if spans[i].2 {
            break;
        }
        i = i + 1;
    }
    if i == spans.len() {
        return None;
    }
    let first = i;
    let start = spans[first].0;
    let mut end = spans[first].1;
    let mut furthest = first;
    assert(selected(spans@, first as int));
    i = first + 1;
    while i < spans.len()
        invariant
            first < i <= spans@.len(),
            first <= furthest < spans@.len(),
            selected(spans@, first as int),
            selected(spans@, furthest as int),
            spans@[furthest as int].1 == end,
            forall|j: int| 0 <= j < first ==> !#[trigger] selected(spans@, j),
            forall|j: int| 0 <= j < i && #[trigger] selected(spans@, j) ==> spans@[j].1 <= end,
        decreases spans@.len() - i,
    {
        if spans[i].2 && spans[i].1 > end {
            end = spans[i].1;
            furthest = i;
        }
        i = i + 1;
    }
    Some((start, end))
}

} // verus!
