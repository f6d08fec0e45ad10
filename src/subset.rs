use vstd::prelude::*;

use crate::metrics::Tag;

verus! {

/// How one variation axis of the source face is fixed in the subset.
#[derive(Clone, Copy, Debug, PartialEq, Eq, Structural)]
pub enum AxisPin {
    /// Pin the axis to the value of the caller's variation at this index.
    Location { tag: Tag, variation: usize },
    /// Pin the axis to its default value.
    Default { tag: Tag },
}

/// `k` is the last index of `tag` in `tags`.
pub open spec fn is_last_index(tags: Seq<Tag>, tag: Tag, k: int) -> bool {
    &&& 0 <= k < tags.len()
    &&& tags[k] == tag
    &&& forall|j: int| k < j < tags.len() ==> tags[j] != tag
}

/// The last index of `tag` in `tags`: where a tag is given twice, the later
/// setting wins.
pub open spec fn last_index_of(tags: Seq<Tag>, tag: Tag) -> Option<int> {
    if tags.contains(tag) {
        Some(choose|k: int| is_last_index(tags, tag, k))
    } else {
        None
    }
}

/// The pin for the axis `axis`, given the tags of the caller's variations.
pub open spec fn pin_for(axis: Tag, variation_tags: Seq<Tag>) -> AxisPin {
    match last_index_of(variation_tags, axis) {
        Some(k) => AxisPin::Location { tag: axis, variation: k as usize },
        None => AxisPin::Default { tag: axis },
    }
}

/// One pin per axis of the face, in the face's order.
pub open spec fn planned_pins(axes: Seq<Tag>, variation_tags: Seq<Tag>) -> Seq<AxisPin> {
    Seq::new(axes.len(), |i: int| pin_for(axes[i], variation_tags))
}

proof fn lemma_last_index_exists(tags: Seq<Tag>, tag: Tag, k: int)
    requires
        0 <= k < tags.len(),
        tags[k] == tag,
    ensures
        exists|m: int| is_last_index(tags, tag, m),
    decreases tags.len() - k,
{
    if exists|j: int| k < j < tags.len() && tags[j] == tag {
        let j = choose|j: int| k < j < tags.len() && tags[j] == tag;
        lemma_last_index_exists(tags, tag, j);
    } else {
        assert(is_last_index(tags, tag, k));
    }
}

proof fn lemma_last_index_unique(tags: Seq<Tag>, tag: Tag, k: int)
    requires
        is_last_index(tags, tag, k),
    ensures
        last_index_of(tags, tag) == Some(k),
{
    assert(tags.contains(tag));
    let m = choose|m: int| is_last_index(tags, tag, m);
    assert(is_last_index(tags, tag, m));
    if m < k {
        assert(tags[k] != tag);
    } else if m > k {
        assert(tags[m] != tag);
    }
}

/// Index of the caller's variation that sets `tag`, the last one where
/// several do.
pub fn find_variation(variation_tags: &[Tag], tag: Tag) -> (r: Option<usize>)
    ensures
        r == match last_index_of(variation_tags@, tag) {
            Some(k) => Some(k as usize),
            None => None::<usize>,
        },
{
    let mut i: usize = variation_tags.len();
    while i > 0
        invariant
            i <= variation_tags@.len(),
            forall|j: int| i <= j < variation_tags@.len() ==> variation_tags@[j] != tag,
        decreases i,
    {
        i = i - 1;
        if variation_tags[i] == tag {
            proof {
                assert(is_last_index(variation_tags@, tag, i as int));
                lemma_last_index_unique(variation_tags@, tag, i as int);
            }
            return Some(i);
        }
    }
    assert(!variation_tags@.contains(tag));
    None
}

/// Decides how each axis of the source face is pinned: to the caller's value
/// where one of `variation_tags` names the axis, to the axis's default
/// otherwise.
pub fn plan_axis_pins(axes: &[Tag], variation_tags: &[Tag]) -> (r: Vec<AxisPin>)
    ensures
        r@ == planned_pins(axes@, variation_tags@),
{
    let mut pins: Vec<AxisPin> = Vec::new();
    let mut i: usize = 0;
    while i < axes.len()
        invariant
            i <= axes@.len(),
            pins@ == planned_pins(axes@, variation_tags@).subrange(0, i as int),
        decreases axes@.len() - i,
    {
        let tag = axes[i];
        let pin = match find_variation(variation_tags, tag) {
            Some(k) => AxisPin::Location { tag, variation: k },
            None => AxisPin::Default { tag },
        };
        pins.push(pin);
        i = i + 1;
        assert(pins@ =~= planned_pins(axes@, variation_tags@).subrange(0, i as int));
    }
    assert(pins@ =~= planned_pins(axes@, variation_tags@));
    pins
}

/// Every axis of the face gets exactly one pin, in the face's order: to the
/// caller's value for that axis's tag, taken from the last variation that
/// names it, where one does; to the axis's default value where none does.
pub proof fn lemma_pins_follow_variations(axes: Seq<Tag>, variation_tags: Seq<Tag>, i: int)
    requires
        0 <= i < axes.len(),
        variation_tags.len() <= usize::MAX,
    ensures
        planned_pins(axes, variation_tags).len() == axes.len(),
        match planned_pins(axes, variation_tags)[i] {
            AxisPin::Location { tag, variation } => {
                &&& tag == axes[i]
                &&& is_last_index(variation_tags, axes[i], variation as int)
            },
            AxisPin::Default { tag } => tag == axes[i] && !variation_tags.contains(axes[i]),
        },
{
    let t = axes[i];
    if variation_tags.contains(t) {
        let k0 = choose|k: int| 0 <= k < variation_tags.len() && variation_tags[k] == t;
        lemma_last_index_exists(variation_tags, t, k0);
        let k = choose|k: int| is_last_index(variation_tags, t, k);
        lemma_last_index_unique(variation_tags, t, k);
    }
}

/// A variation whose tag names no axis of the face changes no pin.
pub proof fn lemma_foreign_variation_ignored(axes: Seq<Tag>, variation_tags: Seq<Tag>, extra: Tag)
    requires
        !axes.contains(extra),
    ensures
        planned_pins(axes, variation_tags.push(extra)) == planned_pins(axes, variation_tags),
{
    let longer = variation_tags.push(extra);
    assert forall|i: int| 0 <= i < axes.len() implies pin_for(axes[i], longer) == pin_for(
        axes[i],
        variation_tags,
    ) by {
        let t = axes[i];
        assert(t != extra);
        if variation_tags.contains(t) {
            let k0 = choose|k: int| 0 <= k < variation_tags.len() && variation_tags[k] == t;
            lemma_last_index_exists(variation_tags, t, k0);
            let k = choose|k: int| is_last_index(variation_tags, t, k);
            assert(is_last_index(longer, t, k));
            lemma_last_index_unique(variation_tags, t, k);
            lemma_last_index_unique(longer, t, k);
        } else {
            assert(!longer.contains(t)) by {
                if longer.contains(t) {
                    let j = choose|j: int| 0 <= j < longer.len() && longer[j] == t;
                    assert(variation_tags[j] == t);
                }
            }
        }
    }
    assert(planned_pins(axes, longer) =~= planned_pins(axes, variation_tags));
}

/// Why a subset could not be made.
#[derive(Clone, Copy, Debug, PartialEq, Eq, Structural)]
pub enum SubsetError {
    /// The engine produced no subset face.
    Failed,
}

/// The outcome of a subset: the serialized face where the engine produced
/// one, an explicit error, never a partial blob, where it did not.
pub fn subset_result(blob: Option<Vec<u8>>) -> (r: Result<Vec<u8>, SubsetError>)
    ensures
        match blob {
            Some(b) => r == Ok::<Vec<u8>, SubsetError>(b),
            None => r == Err::<Vec<u8>, SubsetError>(SubsetError::Failed),
        },
{
    match blob {
        Some(b) => Ok(b),
        None => Err(SubsetError::Failed),
    }
}

} // verus!
