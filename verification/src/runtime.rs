//! The agent runtime for Linux: the accounts it reports and the details it
//! announces at startup.

use std::collections::HashMap;
use std::sync::Arc;
use vstd::prelude::*;
use vstd::std_specs::iter::IteratorSpec;

use crate::users::user_names;

verus! {

broadcast use vstd::std_specs::hash::group_hash_axioms;

/// The Linux agent runtime.
#[derive(Debug, Clone, Copy)]
pub struct LinuxAgent;

impl Default for LinuxAgent {
    fn default() -> (a: Self)
        ensures
            a == LinuxAgent,
    {
        LinuxAgent
    }
}

/// A new, shared agent runtime.
pub fn new_runtime() -> (r: Arc<LinuxAgent>)
    ensures
        *r == LinuxAgent,
{
    Arc::new(LinuxAgent)
}

/// A regular account of the machine.
pub struct LinuxUser {
    pub username: String,
    pub uid: u32,
}

/// What the agent announces about itself at startup.
pub struct StartupDetails {
    pub source: String,
    pub hostname: Option<String>,
}

/// The accounts of `users` as a list: every account once, with its id and name.
pub open spec fn lists_accounts(list: Seq<LinuxUser>, users: Map<u32, Seq<char>>) -> bool {
    &&& list.len() == users.len()
    &&& forall|i: int| 0 <= i < list.len() ==> #[trigger] users.contains_key(list[i].uid)
        && users[list[i].uid] == list[i].username@
    &&& forall|uid: u32| #[trigger] users.contains_key(uid) ==> exists|i: int|
        0 <= i < list.len() && (#[trigger] list[i]).uid == uid
    &&& forall|i: int, j: int| 0 <= i < j < list.len() ==> (#[trigger] list[i]).uid != (#[trigger] list[j]).uid
}

impl LinuxAgent {
    /// The accounts to report, one entry per account of `users`. The order is the
    /// order in which the map is walked, which is not stated.
    pub fn list_users(&self, users: &HashMap<u32, String>) -> (list: Vec<LinuxUser>)
        ensures
            lists_accounts(list@, user_names(users@)),
    {
        let mut list: Vec<LinuxUser> = Vec::new();
        let it = users.iter();
        let ghost all = it.remaining();
        proof {
            assert(it == vstd::std_specs::hash::spec_hash_map_iter(users));
            assert(all == vstd::std_specs::hash::spec_hash_map_iter(users).remaining());
        }
        for (uid, name) in iter: it
            invariant
                iter.seq() == all,
                list@.len() == iter.index(),
                forall|i: int| 0 <= i < list@.len() ==> (#[trigger] list@[i]).uid == *all[i].0
                    && list@[i].username@ == (*all[i].1)@,
        {
            list.push(LinuxUser { username: name.clone(), uid: *uid });
        }
        let ghost names = user_names(users@);
        proof {
            assert(list@.len() == all.len());
            assert(all.no_duplicates());
            assert(names.dom() =~= users@.dom());
            assert forall|i: int, j: int| 0 <= i < j < list@.len() implies (#[trigger] list@[i]).uid
                != (#[trigger] list@[j]).uid by {
                if list@[i].uid == list@[j].uid {
                    assert(users@.contains_key(*all[i].0) && users@[*all[i].0] == *all[i].1);
                    assert(users@.contains_key(*all[j].0) && users@[*all[j].0] == *all[j].1);
                    assert(all[i] == all[j]);
                }
            }
            assert forall|i: int| 0 <= i < list@.len() implies #[trigger] names.contains_key(
                list@[i].uid,
            ) && names[list@[i].uid] == list@[i].username@ by {
                assert(users@.contains_key(*all[i].0) && users@[*all[i].0] == *all[i].1);
            }
            assert forall|k: u32| #[trigger] names.contains_key(k) implies exists|i: int|
                0 <= i < list@.len() && (#[trigger] list@[i]).uid == k by {
                assert(users@.contains_key(k));
                assert(all.contains((&k, &users@[k])));
                let i = choose|i: int| 0 <= i < all.len() && all[i] == (&k, &users@[k]);
                assert(list@[i].uid == k);
            }
        }
        list
    }

    /// The details announced at startup: the source `agent_service` and the host name.
    pub fn startup_details(&self, hostname: Option<&str>) -> (d: StartupDetails)
        ensures
            d.source@ == "agent_service"@,
            match hostname {
                Some(h) => d.hostname is Some && d.hostname->0@ == h@,
                None => d.hostname is None,
            },
    {
        StartupDetails {
            source: String::from_str("agent_service"),
            hostname: match hostname {
                Some(h) => Some(String::from_str(h)),
                None => None,
            },
        }
    }
}

} // verus!
