//! Mutual exclusion of runs that would write to the same place: at most one
//! installation per target directory, at most one start per service.
use vstd::prelude::*;
use crate::text::{equals, views};

verus! {

/// The targets on which a run is in progress.
pub struct RunLocks {
    active: Vec<String>,
}

impl RunLocks {
    /// The targets held.
    pub closed spec fn held(&self) -> Set<Seq<char>> {
        views(self.active@).to_set()
    }

    /// No target is held twice.
    pub closed spec fn wf(&self) -> bool {
        views(self.active@).no_duplicates()
    }

    /// No target held.
    pub fn new() -> (r: Self)
        ensures
            r.wf(),
            r.held() == Set::<Seq<char>>::empty(),
    {
        let r = RunLocks { active: Vec::new() };
        assert(views(r.active@) =~= Seq::<Seq<char>>::empty());
        assert(r.held() =~= Set::<Seq<char>>::empty());
        r
    }

    fn position(&self, target: &str) -> (r: Option<usize>)
        ensures
            r matches Some(i) ==> i < self.active@.len() && self.active@[i as int]@ == target@,
            r is None ==> !views(self.active@).contains(target@),
    {
        let mut i: usize = 0;
        while i < self.active.len()
            invariant
                i <= self.active@.len(),
                forall|k: int| 0 <= k < i ==> self.active@[k]@ != target@,
            decreases self.active@.len() - i,
        {
            if equals(self.active[i].as_str(), target) {
                return Some(i);
            }
            i = i + 1;
        }
        assert(!views(self.active@).contains(target@)) by {
            if views(self.active@).contains(target@) {
                let k = choose|k: int| 0 <= k < views(self.active@).len() && views(self.active@)[k] == target@;
                assert(self.active@[k]@ == target@);
            }
        }
        None
    }

    /// Whether a run on `target` is in progress.
    pub fn is_held(&self, target: &str) -> (r: bool)
        ensures
            r == self.held().contains(target@),
    {
        let r = self.position(target);
        proof {
            if let Some(i) = r {
                assert(views(self.active@)[i as int] == target@);
            }
        }
        r.is_some()
    }

    /// Takes `target` for a run. Refused while another run holds it; then
    /// nothing changes.
    pub fn try_acquire(&mut self, target: &str) -> (r: bool)
        requires
            old(self).wf(),
        ensures
            final(self).wf(),
            r == !old(self).held().contains(target@),
            r ==> final(self).held() == old(self).held().insert(target@),
            !r ==> final(self).held() == old(self).held(),
    {
        if self.is_held(target) {
            return false;
        }
        let ghost before = views(self.active@);
        self.active.push(String::from_str(target));
        assert(views(self.active@) =~= before.push(target@));
        assert(self.held() =~= before.to_set().insert(target@)) by {
            before.lemma_push_to_set_commute(target@);
        }
        true
    }

    /// Gives `target` back at the end of its run.
    pub fn release(&mut self, target: &str)
        requires
            old(self).wf(),
        ensures
            final(self).wf(),
            final(self).held() == old(self).held().remove(target@),
    {
        let ghost before = views(self.active@);
        match self.position(target) {
            Some(i) => {
                self.active.remove(i);
                let ghost after = views(self.active@);
                assert(after =~= before.remove(i as int));
                assert(after.no_duplicates()) by {
                    assert forall|a: int, b: int| 0 <= a < b < after.len() implies after[a] != after[b] by {
                        let a2 = if a < i { a } else { a + 1 };
                        let b2 = if b < i { b } else { b + 1 };
                        assert(after[a] == before[a2]);
                        assert(after[b] == before[b2]);
                    }
                }
                assert(self.held() =~= before.to_set().remove(target@)) by {
                    assert forall|x: Seq<char>| after.contains(x) <==> (before.contains(x) && x != target@) by {
                        if after.contains(x) {
                            let k = choose|k: int| 0 <= k < after.len() && after[k] == x;
                            let k2 = if k < i { k } else { k + 1 };
                            assert(before[k2] == x);
                            assert(k2 != i);
                            assert(before[i as int] == target@);
                            assert(before[k2] != before[i as int]);
                        }
                        if before.contains(x) && x != target@ {
                            let k = choose|k: int| 0 <= k < before.len() && before[k] == x;
                            assert(k != i);
                            let k2 = if k < i { k } else { k - 1 };
                            assert(after[k2] == x);
                        }
                    }
                }
            },
            None => {
                assert(self.held() =~= before.to_set().remove(target@));
            },
        }
    }
}

/// Once a request for a target is granted, the target is held, so a second
/// request for it (`try_acquire`, which grants exactly the targets not held)
/// is refused until the first run releases it; a release frees it again.
pub proof fn lemma_second_run_refused(
    before: RunLocks,
    granted: RunLocks,
    released: RunLocks,
    target: Seq<char>,
)
    requires
        granted.held() == before.held().insert(target),
        released.held() == granted.held().remove(target),
    ensures
        granted.held().contains(target),
        !released.held().contains(target),
{
}

} // verus!
