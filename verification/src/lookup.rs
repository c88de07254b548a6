//! Reduction of the name lists a lookup returns to short identifiers.
//!
//! Each listing operation of the backend hands back fully qualified names;
//! the cascade only ever sees short identifiers. This module runs the
//! extractor over a whole candidate list, preserving its order, and fails on
//! the first name that does not match its template. Container names never
//! pass through here: a describe-style call returns them plain.

use crate::arn::{
    extract, is_extraction_of, marker_of, matches_template, parent_view, ResourceKind,
};
use crate::errors::RunError;
use vstd::prelude::*;

verus! {

/// Extracts the short identifier from every name in `names`, in order.
///
/// Returns one identifier per name exactly when every name matches the
/// anchored template for `kind` (with `parent` the owning cluster for
/// services and tasks); otherwise rejects the whole list as malformed. An
/// empty list yields an empty list: whether that is fatal is the cascade's
/// decision, not this one's.
pub fn extract_ids(names: &Vec<String>, kind: ResourceKind, parent: Option<&str>) -> (res: Result<
    Vec<String>,
    RunError,
>)
    requires
        (parent is Some) <==> !(kind is Cluster),
    ensures
        res is Ok <==> (forall|i: int|
            0 <= i < names@.len() ==> matches_template(
                #[trigger] names@[i]@,
                marker_of(kind, parent_view(parent)),
            )),
        res matches Ok(ids) ==> ids@.len() == names@.len(),
        res matches Ok(ids) ==> forall|i: int|
            0 <= i < names@.len() ==> is_extraction_of(
                #[trigger] names@[i]@,
                marker_of(kind, parent_view(parent)),
                ids@[i]@,
            ),
        res matches Err(e) ==> e == RunError::MalformedIdentifier,
{
    let mut ids: Vec<String> = Vec::new();
    let mut i: usize = 0;
    while i < names.len()
        invariant
            (parent is Some) <==> !(kind is Cluster),
            0 <= i <= names@.len(),
            ids@.len() == i,
            forall|t: int|
                0 <= t < i ==> matches_template(
                    #[trigger] names@[t]@,
                    marker_of(kind, parent_view(parent)),
                ),
            forall|t: int|
                0 <= t < i ==> is_extraction_of(
                    #[trigger] names@[t]@,
                    marker_of(kind, parent_view(parent)),
                    ids@[t]@,
                ),
        decreases names@.len() - i,
    {
        match extract(names[i].as_str(), kind, parent) {
            Ok(id) => {
                let ghost prev_ids = ids@;
                let ghost idg = id@;
                ids.push(id);
                proof {
                    assert(ids@[i as int]@ == idg);
                    assert forall|t: int|
                        0 <= t < i + 1 implies is_extraction_of(
                        #[trigger] names@[t]@,
                        marker_of(kind, parent_view(parent)),
                        ids@[t]@,
                    ) by {
                        if t < i {
                            assert(ids@[t] == prev_ids[t]);
                        } else {
                            assert(is_extraction_of(
                                names@[t]@,
                                marker_of(kind, parent_view(parent)),
                                idg,
                            ));
                        }
                    }
                }
            },
            Err(e) => {
                return Err(e);
            },
        }
        i += 1;
    }
    let ghost idsg = ids@;
    let res: Result<Vec<String>, RunError> = Ok(ids);
    proof {
        assert(res matches Ok(v) ==> v@ == idsg);
    }
    res
}

} // verus!
