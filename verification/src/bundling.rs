//! The field-ordering checker for full-text declarations: the unsorted
//! ("text") fields of a declaration must form at most one contiguous run.
//! Sorted fields may stand before and after that run, but a second run of
//! unsorted fields is illegal.

use vstd::prelude::*;

use crate::schema::{field_is_sorted, FieldAttribute};

verus! {

/// The scanner's state while it walks the field list from left to right.
#[derive(Clone, Copy, PartialEq, Eq, Structural, Debug)]
pub enum BundleState {
    /// No field consumed yet.
    Init,
    /// Only sorted fields seen so far.
    SortParamHead,
    /// Inside the single run of unsorted fields.
    TextFieldBundle,
    /// Sorted fields after the run; another unsorted field is illegal here.
    SortParamTail,
}

/// The ordering violation itself: somewhere an unsorted field is followed by
/// a sorted one and later by another unsorted one, so the unsorted fields
/// fall into two separate runs.
pub open spec fn splits_text_bundle(fields: Seq<FieldAttribute>) -> bool {
    exists|i: int, j: int, k: int|
        #![trigger fields[i], fields[j], fields[k]]
        0 <= i < j && j < k < fields.len() && !field_is_sorted(fields[i]) && field_is_sorted(
            fields[j],
        ) && !field_is_sorted(fields[k])
}

pub open spec fn all_sorted(fields: Seq<FieldAttribute>) -> bool {
    forall|m: int| 0 <= m < fields.len() ==> field_is_sorted(#[trigger] fields[m])
}

pub open spec fn has_unsorted(fields: Seq<FieldAttribute>) -> bool {
    exists|m: int| 0 <= m < fields.len() && !field_is_sorted(#[trigger] fields[m])
}

pub open spec fn has_sorted_after_unsorted(fields: Seq<FieldAttribute>) -> bool {
    exists|m: int, n: int|
        #![trigger fields[m], fields[n]]
        0 <= m < n && n < fields.len() && !field_is_sorted(fields[m]) && field_is_sorted(fields[n])
}

/// What each scanner state says about the prefix consumed so far.
pub open spec fn state_describes(state: BundleState, seen: Seq<FieldAttribute>) -> bool {
    match state {
        BundleState::Init => seen.len() == 0,
        BundleState::SortParamHead => seen.len() > 0 && all_sorted(seen),
        BundleState::TextFieldBundle => has_unsorted(seen) && !has_sorted_after_unsorted(seen),
        BundleState::SortParamTail => has_sorted_after_unsorted(seen) && !splits_text_bundle(seen),
    }
}

/// One pass of the state machine over the field list; true exactly when the
/// single-bundle invariant is broken. The scan stops at the first violation.
pub fn scan_splits_text_bundle(fields: &Vec<FieldAttribute>) -> (r: bool)
    ensures
        r == splits_text_bundle(fields@),
{
    let mut state = BundleState::Init;
    let mut i: usize = 0;
    while i < fields.len()
        invariant
            i <= fields.len(),
            state_describes(state, fields@.take(i as int)),
            !splits_text_bundle(fields@.take(i as int)),
        decreases fields.len() - i,
    {
        let ghost prefix = fields@.take(i as int);
        let ghost extended = fields@.take(i + 1);
        proof {
            assert(extended =~= prefix.push(fields@[i as int]));
            assert(forall|m: int| 0 <= m < prefix.len() ==> extended[m] == #[trigger] prefix[m]);
            assert(extended[i as int] == fields@[i as int]);
        }
        let sorted = fields[i].sort_order.is_some();
        state = match state {
            BundleState::Init if sorted => BundleState::SortParamHead,
            BundleState::SortParamHead if sorted => BundleState::SortParamHead,
            BundleState::TextFieldBundle if sorted => {
                proof {
                    let m = choose|m: int|
                        0 <= m < prefix.len() && !field_is_sorted(#[trigger] prefix[m]);
                    assert(!field_is_sorted(extended[m]) && field_is_sorted(extended[i as int]));
                }
                BundleState::SortParamTail
            },
            BundleState::SortParamTail if sorted => {
                proof {
                    let (m, n) = choose|m: int, n: int|
                        #![trigger prefix[m], prefix[n]]
                        0 <= m < n && n < prefix.len() && !field_is_sorted(prefix[m])
                            && field_is_sorted(prefix[n]);
                    assert(!field_is_sorted(extended[m]) && field_is_sorted(extended[n]));
                }
                BundleState::SortParamTail
            },
            BundleState::Init | BundleState::SortParamHead | BundleState::TextFieldBundle => {
                proof {
                    assert(!field_is_sorted(extended[i as int]));
                }
                BundleState::TextFieldBundle
            },
            BundleState::SortParamTail => {
                // A second run of unsorted fields starts here: the whole list
                // is in violation, and the scan stops.
                proof {
                    let (m, n) = choose|m: int, n: int|
                        #![trigger prefix[m], prefix[n]]
                        0 <= m < n && n < prefix.len() && !field_is_sorted(prefix[m])
                            && field_is_sorted(prefix[n]);
                    assert(prefix[m] == fields@[m] && prefix[n] == fields@[n]);
                    assert(!field_is_sorted(fields@[m]) && field_is_sorted(fields@[n])
                        && !field_is_sorted(fields@[i as int]));
                }
                return true;
            },
        };
        i += 1;
    }
    proof {
        assert(fields@.take(fields@.len() as int) =~= fields@);
    }
    false
}

} // verus!
