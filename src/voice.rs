use vstd::prelude::*;

use crate::ids::{contains_id, id_set, lemma_id_set_push};

verus! {

/// The members that the coordinator has muted after `muted`, when `members`
/// are asked to be muted.
pub open spec fn muted_after_mute_all(muted: Set<u64>, members: Seq<u64>) -> Set<u64> {
    muted.union(id_set(members))
}

/// Muting the same members twice in a row leaves the same muted set as
/// muting them once.
pub proof fn lemma_mute_all_idempotent(muted: Set<u64>, members: Seq<u64>)
    ensures
        muted_after_mute_all(muted_after_mute_all(muted, members), members)
            == muted_after_mute_all(muted, members),
{
    assert(muted_after_mute_all(muted_after_mute_all(muted, members), members)
        =~= muted_after_mute_all(muted, members));
}

/// Keeps the voice server-mute state of members in step with meeting state.
///
/// Only members that this coordinator muted are ever unmuted by it: it tracks
/// them as a set, held as a list without repetitions.
pub struct VoiceMuteCoordinator {
    muted: Vec<u64>,
}

impl VoiceMuteCoordinator {
    /// The members this coordinator has muted and not yet unmuted.
    pub closed spec fn muted_set(&self) -> Set<u64> {
        id_set(self.muted@)
    }

    pub closed spec fn wf(&self) -> bool {
        self.muted@.no_duplicates()
    }

    pub fn new() -> (r: Self)
        ensures
            r.wf(),
            r.muted_set() == Set::<u64>::empty(),
    {
        let r = VoiceMuteCoordinator { muted: Vec::new() };
        assert(r.muted_set() =~= Set::<u64>::empty());
        r
    }

    /// Whether `member` is currently muted by this coordinator.
    pub fn is_muted(&self, member: u64) -> (r: bool)
        ensures
            r == self.muted_set().contains(member),
    {
        contains_id(&self.muted, member)
    }

    /// The members muted by this coordinator, each once.
    pub fn muted_members(&self) -> (r: Vec<u64>)
        requires
            self.wf(),
        ensures
            id_set(r@) == self.muted_set(),
            r@.no_duplicates(),
    {
        let r = self.muted.clone();
        assert(r@ =~= self.muted@);
        r
    }

    /// Mutes every member in `members`. Members already muted are left as they
    /// are: the result lists, each once, the members whose mute flag is to be
    /// set now.
    pub fn mute_all(&mut self, members: &Vec<u64>) -> (newly: Vec<u64>)
        requires
            old(self).wf(),
        ensures
            final(self).wf(),
            final(self).muted_set() == muted_after_mute_all(old(self).muted_set(), members@),
            id_set(newly@) == id_set(members@).difference(old(self).muted_set()),
            newly@.no_duplicates(),
    {
        let ghost before = self.muted_set();
        let mut newly: Vec<u64> = Vec::new();
        let mut i: usize = 0;
        while i < members.len()
            invariant
                0 <= i <= members.len(),
                self.wf(),
                newly@.no_duplicates(),
                id_set(newly@).subset_of(self.muted_set()),
                self.muted_set() == before.union(id_set(members@.take(i as int))),
                id_set(newly@) == id_set(members@.take(i as int)).difference(before),
            decreases members.len() - i,
        {
            let m = members[i];
            let ghost prev = members@.take(i as int);
            assert(members@.take(i + 1) == prev.push(m));
            let ghost set0 = id_set(newly@);
            let ghost muted0 = self.muted_set();
            proof {
                lemma_id_set_push(prev, m);
            }
            if !contains_id(&self.muted, m) {
                proof {
                    lemma_id_set_push(self.muted@, m);
                    lemma_id_set_push(newly@, m);
                    assert(!id_set(newly@).contains(m));
                    assert(!newly@.contains(m));
                }
                let ghost n0 = newly@;
                let ghost m0 = self.muted@;
                self.muted.push(m);
                newly.push(m);
                proof {
                    assert forall|a: int, b: int|
                        0 <= a < newly@.len() && 0 <= b < newly@.len() && a != b
                        implies newly@[a] != newly@[b] by {
                        if a < n0.len() && b < n0.len() {
                            assert(n0[a] != n0[b]);
                        } else if a < n0.len() {
                            assert(n0.contains(n0[a]));
                        } else if b < n0.len() {
                            assert(n0.contains(n0[b]));
                        }
                    }
                    assert forall|a: int, b: int|
                        0 <= a < self.muted@.len() && 0 <= b < self.muted@.len() && a != b
                        implies self.muted@[a] != self.muted@[b] by {
                        if a < m0.len() && b < m0.len() {
                            assert(m0[a] != m0[b]);
                        } else if a < m0.len() {
                            assert(m0.contains(m0[a]));
                        } else if b < m0.len() {
                            assert(m0.contains(m0[b]));
                        }
                    }
                    assert(id_set(newly@) == set0.insert(m));
                    assert(!muted0.contains(m));
                    assert(!before.contains(m));
                    assert(set0.insert(m) =~= id_set(prev).insert(m).difference(before));
                }
            } else {
                assert(self.muted_set().contains(m));
                assert(before.contains(m) || id_set(newly@).contains(m));
                assert(set0 =~= id_set(prev).insert(m).difference(before));
            }
            i = i + 1;
            assert(self.muted_set() =~= before.union(id_set(members@.take(i as int))));
            assert(id_set(members@.take(i as int)) == id_set(prev).insert(m));
            assert(id_set(newly@) =~= id_set(members@.take(i as int)).difference(before));
        }
        assert(members@.take(members.len() as int) == members@);
        newly
    }

    /// Unmutes every member that this coordinator muted, and forgets them. The
    /// result lists, each once, exactly the members muted before the call.
    pub fn unmute_all(&mut self) -> (released: Vec<u64>)
        requires
            old(self).wf(),
        ensures
            final(self).wf(),
            final(self).muted_set() == Set::<u64>::empty(),
            id_set(released@) == old(self).muted_set(),
            released@.no_duplicates(),
    {
        let released = self.muted.clone();
        assert(released@ =~= self.muted@);
        self.muted = Vec::new();
        assert(self.muted_set() =~= Set::<u64>::empty());
        released
    }
}

} // verus!
