use vstd::prelude::*;

verus! {

/// The views of a list of layer names, each name as its character sequence.
pub open spec fn names_view(names: Seq<String>) -> Seq<Seq<char>> {
    names.map_values(|name: String| name@)
}

/// Whether `name` has an exact match among `available`.
pub open spec fn spec_layer_available(available: Seq<Seq<char>>, name: Seq<char>) -> bool {
    exists|j: int| 0 <= j < available.len() && available[j] == name
}

/// Whether the driver reported any layers at all and every requested name has
/// an exact match among the reported ones.
pub open spec fn spec_validation_layers_supported(
    requested: Seq<Seq<char>>,
    available: Seq<Seq<char>>,
) -> bool {
    &&& available.len() > 0
    &&& forall|i: int|
        0 <= i < requested.len() ==> #[trigger] spec_layer_available(available, requested[i])
}

/// Decide whether every requested validation layer is present among the layer
/// names the driver reported. False when the driver reported none at all, and
/// false as soon as one requested name has no exact match; true otherwise.
pub fn is_validation_layers_supported(requested: &Vec<String>, available: &Vec<String>) -> (supported:
    bool)
    ensures
        supported == spec_validation_layers_supported(
            names_view(requested@),
            names_view(available@),
        ),
{
    if available.len() == 0 {
        return false;
    }
    let mut i: usize = 0;
    while i < requested.len()
        invariant
            0 < available@.len(),
            i <= requested@.len(),
            forall|k: int|
                0 <= k < i ==> #[trigger] spec_layer_available(
                    names_view(available@),
                    names_view(requested@)[k],
                ),
        decreases requested@.len() - i,
    {
        let mut found = false;
        let mut j: usize = 0;
        while j < available.len() && !found
            invariant
                j <= available@.len(),
                i < requested@.len(),
                found ==> spec_layer_available(names_view(available@), requested@[i as int]@),
                !found ==> forall|l: int|
                    0 <= l < j ==> names_view(available@)[l] != requested@[i as int]@,
            decreases available@.len() - j,
        {
            if requested[i] == available[j] {
                proof {
                    assert(names_view(available@)[j as int] == requested@[i as int]@);
                }
                found = true;
            }
            j += 1;
        }
        if !found {
            proof {
                assert(!spec_layer_available(names_view(available@), names_view(requested@)[i as int]));
            }
            return false;
        }
        i += 1;
    }
    true
}

/// Law: when the driver reports no layers at all, no request is supported,
/// whatever was requested.
pub proof fn lemma_no_available_layers_unsupported(
    requested: Seq<Seq<char>>,
    available: Seq<Seq<char>>,
)
    requires
        available.len() == 0,
    ensures
        !spec_validation_layers_supported(requested, available),
{
}

} // verus!
