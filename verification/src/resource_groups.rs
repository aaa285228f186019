//! Plain-value records for resource groups and role assignments, and the
//! grouping of assignments under the resource group whose scope they target.

use vstd::prelude::*;

verus! {

/// One resource group, reduced to what the listing and the interactive view
/// read: its display name and the scope string its identifier denotes.
#[derive(Debug, PartialEq)]
pub struct ResourceGroupRecord {
    pub name: String,
    pub scope: String,
}

/// One role assignment together with what is shown for it: the scope it
/// applies to, the display name of its role definition, the principal it
/// grants the role to, and whether that role definition satisfies the
/// general read action.
#[derive(Debug, PartialEq)]
pub struct RoleAssignmentRecord {
    pub scope: String,
    pub role_name: String,
    pub principal_id: String,
    pub can_read: bool,
}

/// The indices into `assignments` of exactly those assignments whose scope
/// equals `scope`, in their original order.
pub fn assignments_for_scope(assignments: &Vec<RoleAssignmentRecord>, scope: &String) -> (r: Vec<
    usize,
>)
    ensures
        forall|k: int| #![trigger r@[k]]
            0 <= k < r@.len() ==> r@[k] < assignments@.len()
                && assignments@[r@[k] as int].scope@ == scope@,
        forall|k1: int, k2: int| 0 <= k1 < k2 < r@.len() ==> r@[k1] < r@[k2],
        forall|j: int|
            0 <= j < assignments@.len() && (#[trigger] assignments@[j]).scope@ == scope@
                ==> r@.contains(j as usize),
{
    let mut r: Vec<usize> = Vec::new();
    let mut i: usize = 0;
    while i < assignments.len()
        invariant
            i <= assignments@.len(),
            forall|k: int| #![trigger r@[k]]
                0 <= k < r@.len() ==> r@[k] < i
                    && assignments@[r@[k] as int].scope@ == scope@,
            forall|k1: int, k2: int| 0 <= k1 < k2 < r@.len() ==> r@[k1] < r@[k2],
            forall|j: int|
                0 <= j < i && (#[trigger] assignments@[j]).scope@ == scope@
                    ==> r@.contains(j as usize),
        decreases assignments@.len() - i,
    {
        let ghost r0 = r@;
        let a = &assignments[i];
        let matched = a.scope == *scope;
        if matched {
            r.push(i);
        }
        proof {
            assert forall|j: int|
                0 <= j < i + 1 && (#[trigger] assignments@[j]).scope@ == scope@
                    implies r@.contains(j as usize) by {
                if j == i as int {
                    assert(matched);
                    assert(r@[r@.len() - 1] == (i as usize));
                } else {
                    assert(r0.contains(j as usize));
                    let k = choose|k: int| 0 <= k < r0.len() && r0[k] == (j as usize);
                    assert(r@[k] == (j as usize));
                }
            }
        }
        i += 1;
    }
    r
}

/// For each resource group, the indices of the role assignments that target
/// its scope: entry `g` of the result is exactly what
/// [`assignments_for_scope`] returns for the scope of resource group `g` —
/// sound, complete, strictly increasing, and so free of duplicates.
pub fn group_by_resource_group(
    groups: &Vec<ResourceGroupRecord>,
    assignments: &Vec<RoleAssignmentRecord>,
) -> (r: Vec<Vec<usize>>)
    ensures
        r@.len() == groups@.len(),
        forall|g: int, k: int| #![trigger r@[g]@[k]]
            0 <= g < r@.len() && 0 <= k < r@[g]@.len() ==> r@[g]@[k] < assignments@.len()
                && assignments@[r@[g]@[k] as int].scope@ == groups@[g].scope@,
        forall|g: int, k1: int, k2: int| #![trigger r@[g]@[k1], r@[g]@[k2]]
            0 <= g < r@.len() && 0 <= k1 < k2 < r@[g]@.len() ==> r@[g]@[k1] < r@[g]@[k2],
        forall|g: int, j: int| #![trigger groups@[g], assignments@[j]]
            0 <= g < groups@.len() && 0 <= j < assignments@.len()
                && assignments@[j].scope@ == groups@[g].scope@ ==> r@[g]@.contains(j as usize),
{
    let mut r: Vec<Vec<usize>> = Vec::new();
    let mut g: usize = 0;
    while g < groups.len()
        invariant
            g <= groups@.len(),
            r@.len() == g,
            forall|gi: int, k: int| #![trigger r@[gi]@[k]]
                0 <= gi < r@.len() && 0 <= k < r@[gi]@.len() ==> r@[gi]@[k] < assignments@.len()
                    && assignments@[r@[gi]@[k] as int].scope@ == groups@[gi].scope@,
            forall|gi: int, k1: int, k2: int| #![trigger r@[gi]@[k1], r@[gi]@[k2]]
                0 <= gi < r@.len() && 0 <= k1 < k2 < r@[gi]@.len() ==> r@[gi]@[k1] < r@[gi]@[k2],
            forall|gi: int, j: int| #![trigger groups@[gi], assignments@[j]]
                0 <= gi < g && 0 <= j < assignments@.len()
                    && assignments@[j].scope@ == groups@[gi].scope@
                    ==> r@[gi]@.contains(j as usize),
        decreases groups@.len() - g,
    {
        let matches_here = assignments_for_scope(assignments, &groups[g].scope);
        r.push(matches_here);
        g += 1;
    }
    r
}

} // verus!
