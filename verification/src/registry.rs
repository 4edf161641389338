//! The push-channel registry: which user listens on which project.
//!
//! A connection task registers a sink under `(project, user)` when a client
//! opens its push stream, and unregisters it on disconnect. The response
//! loop looks the sink up to fan a completion event out; a failed send
//! unregisters the sink. Sends are best effort: an absent entry drops the
//! event. Sinks are named by plain handles; the connection plumbing that
//! owns the actual channels lives with the caller.

use vstd::prelude::*;

verus! {

/// Whether some entry of `entries` is keyed by `k`.
pub open spec fn reg_has_key(entries: Seq<(u128, u128, u64)>, k: (u128, u128)) -> bool {
    exists|i: int|
        0 <= i < entries.len() && (#[trigger] entries[i]).0 == k.0 && entries[i].1 == k.1
}

/// The sink handle recorded under `k`.
pub open spec fn reg_value(entries: Seq<(u128, u128, u64)>, k: (u128, u128)) -> u64 {
    let i = choose|i: int|
        0 <= i < entries.len() && (#[trigger] entries[i]).0 == k.0 && entries[i].1 == k.1;
    entries[i].2
}

/// The entries as a map from `(project, user)` to sink handle.
pub open spec fn reg_map(entries: Seq<(u128, u128, u64)>) -> Map<(u128, u128), u64> {
    Map::new(|k: (u128, u128)| reg_has_key(entries, k), |k: (u128, u128)| reg_value(entries, k))
}

/// The process-wide registry of push sinks, keyed by `(project, user)`.
#[derive(Debug)]
pub struct PushRegistry {
    entries: Vec<(u128, u128, u64)>,
}

impl View for PushRegistry {
    type V = Map<(u128, u128), u64>;

    closed spec fn view(&self) -> Map<(u128, u128), u64> {
        reg_map(self.entries@)
    }
}

impl PushRegistry {
    /// Keys are unique.
    pub closed spec fn wf(self) -> bool {
        forall|i: int, j: int|
            0 <= i < j < self.entries@.len() ==> ((#[trigger] self.entries@[i]).0 != (
            #[trigger] self.entries@[j]).0 || self.entries@[i].1 != self.entries@[j].1)
    }

    /// An empty registry.
    pub fn new() -> (r: PushRegistry)
        ensures
            r.wf(),
            r@ =~= Map::<(u128, u128), u64>::empty(),
    {
        PushRegistry { entries: Vec::new() }
    }

    /// Registers `sink` for `(project_uuid, user_uuid)`, replacing any
    /// sink already registered there.
    pub fn register_ws_client(&mut self, project_uuid: u128, user_uuid: u128, sink: u64)
        requires
            old(self).wf(),
        ensures
            final(self).wf(),
            final(self)@ =~= old(self)@.insert((project_uuid, user_uuid), sink),
    {
        self.unregister_ws_client(project_uuid, user_uuid);
        let ghost old_entries = self.entries@;
        let ghost key = (project_uuid, user_uuid);
        proof {
            assert(key.0 == project_uuid && key.1 == user_uuid);
            assert(!self@.contains_key((project_uuid, user_uuid)));
            assert(!reg_has_key(old_entries, key));
        }
        self.entries.push((project_uuid, user_uuid, sink));
        proof {
            let entries = self.entries@;
            let n = old_entries.len() as int;
            assert(forall|j: int| 0 <= j < n ==> entries[j] == old_entries[j]);
            assert(entries[n] == (project_uuid, user_uuid, sink));
            assert(!reg_has_key(old_entries, key));
            assert forall|k: (u128, u128)|
                reg_map(entries).contains_key(k) == reg_map(old_entries).insert(
                    key,
                    sink,
                ).contains_key(k) by {
                if reg_has_key(entries, k) {
                    let i = choose|i: int|
                        0 <= i < entries.len() && (#[trigger] entries[i]).0 == k.0
                            && entries[i].1 == k.1;
                    if i < n {
                        assert(old_entries[i].0 == k.0 && old_entries[i].1 == k.1);
                        assert(reg_has_key(old_entries, k));
                    }
                }
                if reg_has_key(old_entries, k) {
                    let i = choose|i: int|
                        0 <= i < old_entries.len() && (#[trigger] old_entries[i]).0 == k.0
                            && old_entries[i].1 == k.1;
                    assert(entries[i].0 == k.0 && entries[i].1 == k.1);
                    assert(reg_has_key(entries, k));
                }
                if k == key {
                    assert(entries[n].0 == k.0 && entries[n].1 == k.1);
                    assert(reg_has_key(entries, k));
                }
            }
            assert forall|k: (u128, u128)|
                reg_map(entries).contains_key(k) implies reg_map(entries)[k] == reg_map(
                old_entries,
            ).insert(key, sink)[k] by {
                let i = choose|i: int|
                    0 <= i < entries.len() && (#[trigger] entries[i]).0 == k.0 && entries[i].1
                        == k.1;
                if k == key {
                    if i < n {
                        assert(old_entries[i].0 == k.0 && old_entries[i].1 == k.1);
                        assert(reg_has_key(old_entries, key));
                        assert(false);
                    }
                    assert(reg_value(entries, k) == sink);
                } else {
                    assert(i < n);
                    assert(old_entries[i].0 == k.0 && old_entries[i].1 == k.1);
                    assert(reg_has_key(old_entries, k));
                    let j = choose|j: int|
                        0 <= j < old_entries.len() && (#[trigger] old_entries[j]).0 == k.0
                            && old_entries[j].1 == k.1;
                    assert(j == i);
                    assert(reg_value(entries, k) == reg_value(old_entries, k));
                }
            }
            assert(reg_map(entries) =~= reg_map(old_entries).insert(key, sink));
            assert forall|a: int, b: int| 0 <= a < b < entries.len() implies ((
            #[trigger] entries[a]).0 != (#[trigger] entries[b]).0 || entries[a].1
                != entries[b].1) by {
                if b == n {
                    assert(entries[a] == old_entries[a]);
                    if entries[a].0 == project_uuid && entries[a].1 == user_uuid {
                        assert(reg_has_key(old_entries, key));
                        assert(false);
                    }
                }
            }
        }
    }

    /// Removes whatever sink is registered for `(project_uuid, user_uuid)`.
    pub fn unregister_ws_client(&mut self, project_uuid: u128, user_uuid: u128)
        requires
            old(self).wf(),
        ensures
            final(self).wf(),
            final(self)@ =~= old(self)@.remove((project_uuid, user_uuid)),
    {
        let ghost old_entries = self.entries@;
        let ghost key = (project_uuid, user_uuid);
        proof {
            assert(key.0 == project_uuid && key.1 == user_uuid);
        }
        let mut i: usize = 0;
        while i < self.entries.len()
            invariant
                key == (project_uuid, user_uuid),
                key.0 == project_uuid && key.1 == user_uuid,
                old(self).wf(),
                self == old(self),
                self.entries@ == old_entries,
                i <= old_entries.len(),
                forall|j: int|
                    0 <= j < i ==> ((#[trigger] old_entries[j]).0 != project_uuid
                        || old_entries[j].1 != user_uuid),
            decreases old_entries.len() - i,
        {
            let e = self.entries[i];
            if e.0 == project_uuid && e.1 == user_uuid {
                self.entries.remove(i);
                proof {
                    let entries = self.entries@;
                    assert(old_entries[i as int].0 == project_uuid && old_entries[i as int].1
                        == user_uuid);
                    assert(forall|j: int| 0 <= j < i ==> entries[j] == old_entries[j]);
                    assert(forall|j: int|
                        i <= j < entries.len() ==> entries[j] == old_entries[j + 1]);
                    assert forall|k2: (u128, u128)|
                        reg_map(entries).contains_key(k2) == old(self)@.remove(key).contains_key(
                            k2,
                        ) by {
                        if reg_has_key(entries, k2) {
                            let a = choose|a: int|
                                0 <= a < entries.len() && (#[trigger] entries[a]).0 == k2.0
                                    && entries[a].1 == k2.1;
                            if a < i {
                                assert(old_entries[a].0 == k2.0 && old_entries[a].1 == k2.1);
                                assert(old_entries[a].0 != project_uuid || old_entries[a].1
                                    != user_uuid);
                            } else {
                                assert(old_entries[a + 1].0 == k2.0 && old_entries[a + 1].1
                                    == k2.1);
                                assert(old_entries[i as int].0 != old_entries[a + 1].0
                                    || old_entries[i as int].1 != old_entries[a + 1].1);
                            }
                            assert(k2.0 != project_uuid || k2.1 != user_uuid);
                            assert(k2 != key);
                            assert(reg_has_key(old_entries, k2));
                        }
                        if reg_has_key(old_entries, k2) && k2 != key {
                            let a = choose|a: int|
                                0 <= a < old_entries.len() && (#[trigger] old_entries[a]).0
                                    == k2.0 && old_entries[a].1 == k2.1;
                            if a < i {
                                assert(entries[a].0 == k2.0 && entries[a].1 == k2.1);
                            } else {
                                if a == i {
                                    assert(k2.0 == project_uuid && k2.1 == user_uuid);
                                    assert(k2 =~= key);
                                    assert(false);
                                }
                                assert(entries[a - 1].0 == k2.0 && entries[a - 1].1 == k2.1);
                            }
                            assert(reg_has_key(entries, k2));
                        }
                    }
                    assert forall|k2: (u128, u128)|
                        reg_map(entries).contains_key(k2) implies reg_map(entries)[k2] == old(
                        self,
                    )@.remove(key)[k2] by {
                        let a = choose|a: int|
                            0 <= a < entries.len() && (#[trigger] entries[a]).0 == k2.0
                                && entries[a].1 == k2.1;
                        assert(reg_has_key(old_entries, k2));
                        let b = choose|b: int|
                            0 <= b < old_entries.len() && (#[trigger] old_entries[b]).0 == k2.0
                                && old_entries[b].1 == k2.1;
                        if a < i {
                            assert(old_entries[a].0 == k2.0 && old_entries[a].1 == k2.1);
                            assert(b == a);
                        } else {
                            assert(old_entries[a + 1].0 == k2.0 && old_entries[a + 1].1 == k2.1);
                            assert(b == a + 1);
                        }
                        assert(reg_value(entries, k2) == reg_value(old_entries, k2));
                    }
                    assert(reg_map(entries) =~= old(self)@.remove(key));
                    assert forall|a: int, b: int| 0 <= a < b < entries.len() implies ((
                    #[trigger] entries[a]).0 != (#[trigger] entries[b]).0 || entries[a].1
                        != entries[b].1) by {
                        if a < i {
                            if b < i {
                            } else {
                                assert(entries[b] == old_entries[b + 1]);
                            }
                        } else {
                            assert(entries[a] == old_entries[a + 1]);
                            assert(entries[b] == old_entries[b + 1]);
                        }
                    }
                }
                return ;
            }
            i = i + 1;
        }
        proof {
            assert(!reg_has_key(old_entries, key));
            assert(reg_map(old_entries) =~= old(self)@.remove(key));
        }
    }

    /// The sink to send to for `(project_uuid, user_uuid)`, if one is
    /// registered; a send is attempted exactly when this finds a sink, and
    /// a failed send must be followed by `unregister_ws_client`.
    pub fn send_ws_message(&self, project_uuid: u128, user_uuid: u128) -> (r: Option<u64>)
        requires
            self.wf(),
        ensures
            match r {
                Some(sink) => self@.contains_key((project_uuid, user_uuid)) && self@[
                    (project_uuid, user_uuid)
                ] == sink,
                None => !self@.contains_key((project_uuid, user_uuid)),
            },
    {
        let ghost key = (project_uuid, user_uuid);
        proof {
            assert(key.0 == project_uuid && key.1 == user_uuid);
        }
        let mut i: usize = 0;
        while i < self.entries.len()
            invariant
                key == (project_uuid, user_uuid),
                key.0 == project_uuid && key.1 == user_uuid,
                self.wf(),
                i <= self.entries@.len(),
                forall|j: int|
                    0 <= j < i ==> ((#[trigger] self.entries@[j]).0 != project_uuid
                        || self.entries@[j].1 != user_uuid),
            decreases self.entries@.len() - i,
        {
            let e = self.entries[i];
            if e.0 == project_uuid && e.1 == user_uuid {
                proof {
                    let entries = self.entries@;
                    assert(entries[i as int].0 == project_uuid && entries[i as int].1
                        == user_uuid);
                    assert(reg_has_key(entries, key));
                    let w = choose|w: int|
                        0 <= w < entries.len() && (#[trigger] entries[w]).0 == key.0
                            && entries[w].1 == key.1;
                    assert(w == i);
                }
                return Some(e.2);
            }
            i = i + 1;
        }
        proof {
            assert(!reg_has_key(self.entries@, key));
        }
        None
    }
}

} // verus!
