//! Finding the organization of a project by a probe of the store.

use crate::text::{decimal, decimal_text};
use vstd::prelude::*;

verus! {

/// The first organization of a list that is not zero.
pub open spec fn first_nonzero(org_ids: Seq<u64>) -> Option<u64>
    decreases org_ids.len(),
{
    if org_ids.len() == 0 {
        None
    } else if org_ids[0] != 0 {
        Some(org_ids[0])
    } else {
        first_nonzero(org_ids.drop_first())
    }
}

/// The probe for the organization of a project: one row at most, and none
/// with organization zero.
pub open spec fn probe_text(project_id: u64) -> Seq<char> {
    "select org_id from outcomes_raw_local prewhere project_id = "@ + decimal(project_id as nat)
        + " where org_id != 0 limit 1"@
}

/// Writes the probe for the organization of a project.
pub fn org_probe_query(project_id: u64) -> (query: String)
    ensures
        query@ == probe_text(project_id),
{
    let mut query = String::from_str(
        "select org_id from outcomes_raw_local prewhere project_id = ",
    );
    query.append(decimal_text(project_id).as_str());
    query.append(" where org_id != 0 limit 1");
    query
}

/// What the first non-zero organization is: it stands in the list, it is
/// not zero, and only zeros stand before it. There is none exactly where
/// the list holds zeros only.
pub proof fn first_nonzero_is_first(org_ids: Seq<u64>)
    ensures
        match first_nonzero(org_ids) {
            Some(id) => id != 0 && exists|i: int|
                0 <= i < org_ids.len() && #[trigger] org_ids[i] == id && forall|j: int|
                    0 <= j < i ==> #[trigger] org_ids[j] == 0,
            None => forall|j: int| 0 <= j < org_ids.len() ==> #[trigger] org_ids[j] == 0,
        },
    decreases org_ids.len(),
{
    if org_ids.len() == 0 {
    } else if org_ids[0] != 0 {
        assert(org_ids[0] == org_ids[0]);
    } else {
        let rest = org_ids.drop_first();
        first_nonzero_is_first(rest);
        match first_nonzero(rest) {
            Some(id) => {
                let i = choose|i: int|
                    0 <= i < rest.len() && #[trigger] rest[i] == id && forall|j: int|
                        0 <= j < i ==> #[trigger] rest[j] == 0;
                assert(org_ids[i + 1] == id);
                assert forall|j: int| 0 <= j < i + 1 implies #[trigger] org_ids[j] == 0 by {
                    if j > 0 {
                        assert(rest[j - 1] == 0);
                    }
                }
            },
            None => {
                assert forall|j: int| 0 <= j < org_ids.len() implies #[trigger] org_ids[j]
                    == 0 by {
                    if j > 0 {
                        assert(rest[j - 1] == 0);
                    }
                }
            },
        }
    }
}

/// Picks the organization out of what the probe returned: the first one
/// that is not zero, if there is any.
pub fn find_org_id(org_ids: &Vec<u64>) -> (found: Option<u64>)
    ensures
        found == first_nonzero(org_ids@),
{
    let mut i: usize = 0;
    assert(org_ids@.skip(0) =~= org_ids@);
    while i < org_ids.len()
        invariant
            i <= org_ids.len(),
            first_nonzero(org_ids@) == first_nonzero(org_ids@.skip(i as int)),
        decreases org_ids.len() - i,
    {
        let ghost rest = org_ids@.skip(i as int);
        assert(rest[0] == org_ids@[i as int]);
        assert(rest.drop_first() =~= org_ids@.skip(i + 1));
        if org_ids[i] != 0 {
            return Some(org_ids[i]);
        }
        i += 1;
    }
    assert(org_ids@.skip(i as int).len() == 0);
    None
}

} // verus!
