//! Circle pages: cleaning of circle metadata before it is shown.
use vstd::prelude::*;
use crate::kv::StringMap;
use crate::pages::{clean_value, cleaned_value};

verus! {

/// Extra information about a circle.
#[derive(Debug)]
pub struct CircleMetadata {
    /// Extra key-value pairs
    pub kv: StringMap,
}

/// Clean circle metadata: every extra value has `<` and `>` escaped, image
/// URLs proxied and style tags dropped.
pub fn clean_metadata_raw(metadata: &CircleMetadata) -> (r: CircleMetadata)
    ensures
        r.kv@ == metadata.kv@.map_values(|v: Seq<char>| cleaned_value(v)),
{
    let entries = metadata.kv.entries();
    let mut values: Vec<String> = Vec::new();
    let mut i: usize = 0;
    while i < entries.len()
        invariant
            crate::kv::pairs_view(entries@) == metadata.kv.pairs(),
            i <= entries.len(),
            values@.len() == i,
            forall|j: int| 0 <= j < i ==> #[trigger] values@[j]@ == cleaned_value(metadata.kv.pairs()[j].1),
        decreases entries.len() - i,
    {
        assert(metadata.kv.pairs()[i as int].1 == entries@[i as int].1@);
        values.push(clean_value(entries[i].1.as_str()));
        i = i + 1;
    }
    let kv = metadata.kv.with_values(values);
    proof {
        crate::kv::lemma_pointwise_values(metadata.kv.pairs(), kv.pairs(), |v: Seq<char>| cleaned_value(v));
    }
    CircleMetadata { kv }
}

} // verus!
