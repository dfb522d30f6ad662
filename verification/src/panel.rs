//! The tray's status panel: which profiles it lists and what it reports.

use vstd::prelude::*;

verus! {

/// Most profiles the status panel lists.
pub const MAX_PROFILES: usize = 10;

/// How many of `count` profiles the panel lists: the first `MAX_PROFILES`.
pub fn listed_profile_count(count: usize) -> (n: usize)
    ensures
        n == if count < MAX_PROFILES {
            count
        } else {
            MAX_PROFILES
        },
{
    if count < MAX_PROFILES {
        count
    } else {
        MAX_PROFILES
    }
}

/// The first index whose profile is connected.
pub open spec fn first_true(flags: Seq<bool>, i: int) -> Option<int>
    decreases flags.len() - i,
{
    if i < 0 || i >= flags.len() {
        None
    } else if flags[i] {
        Some(i)
    } else {
        first_true(flags, i + 1)
    }
}

/// Law: the panel's profile is the least index whose profile is connected,
/// and there is none only when no profile is connected.
pub proof fn lemma_first_true_is_least(flags: Seq<bool>, i: int)
    requires
        0 <= i,
    ensures
        first_true(flags, i) matches Some(k) ==> i <= k < flags.len() && flags[k] && forall|j: int|
            i <= j < k ==> !#[trigger] flags[j],
        first_true(flags, i) is None ==> forall|j: int| i <= j < flags.len() ==> !#[trigger] flags[j],
    decreases flags.len() - i,
{
    if i < flags.len() && !flags[i] {
        lemma_first_true_is_least(flags, i + 1);
    }
}

/// The profile whose traffic the panel shows: the first connected one.
pub fn first_connected(connected: &Vec<bool>) -> (r: Option<usize>)
    ensures
        match first_true(connected@, 0) {
            Some(i) => r == Some(i as usize),
            None => r is None,
        },
        r matches Some(i) ==> i < connected@.len() && connected@[i as int] && forall|j: int|
            0 <= j < i ==> !#[trigger] connected@[j],
        r is None ==> forall|j: int| 0 <= j < connected@.len() ==> !#[trigger] connected@[j],
{
    proof {
        lemma_first_true_is_least(connected@, 0);
    }
    let mut i: usize = 0;
    while i < connected.len()
        invariant
            i <= connected@.len(),
            first_true(connected@, 0) == first_true(connected@, i as int),
        decreases connected.len() - i,
    {
        if connected[i] {
            assert(first_true(connected@, i as int) == Some(i as int));
            proof {
                lemma_first_true_is_least(connected@, 0);
            }
            return Some(i);
        }
        i = i + 1;
    }
    None
}

/// The panel's status line when it opens.
pub fn panel_status(any_connected: bool) -> (s: String)
    ensures
        s@ == if any_connected {
            "CONNECTED"@
        } else {
            "DISCONNECTED"@
        },
{
    if any_connected {
        "CONNECTED".to_owned()
    } else {
        "DISCONNECTED".to_owned()
    }
}

} // verus!
