//! Lazy linking of animation players to their owning actors.
//!
//! Scene graphs load in the background, so the child entity that hosts an
//! actor's animation player appears some frames after the actor itself.  A
//! reconciliation pass polls newly appeared animation players once per frame
//! and records, for each actor root, the player entity found under it.  The
//! link is created exactly once — linking an already linked owner is a no-op
//! and keeps the original player — and an actor without a resolved link is
//! simply skipped by the animation selector for the frame.

use vstd::prelude::*;

verus! {

/// The recorded owner-to-player links, as the map they denote.
pub open spec fn map_of(s: Seq<(u64, u64)>) -> Map<u64, u64>
    decreases s.len(),
{
    if s.len() == 0 {
        Map::empty()
    } else {
        map_of(s.drop_last()).insert(s.last().0, s.last().1)
    }
}

/// A key is in the map exactly when some pair carries it.
proof fn lemma_map_of_contains(s: Seq<(u64, u64)>, k: u64)
    ensures
        map_of(s).contains_key(k) <==> exists|i: int| 0 <= i < s.len() && (#[trigger] s[i]).0 == k,
    decreases s.len(),
{
    if s.len() > 0 {
        lemma_map_of_contains(s.drop_last(), k);
        if map_of(s).contains_key(k) {
            if s.last().0 == k {
                assert(s[s.len() - 1].0 == k);
            } else {
                let i = choose|i: int| 0 <= i < s.drop_last().len() && (#[trigger] s.drop_last()[i]).0
                    == k;
                assert(s[i].0 == k);
            }
        }
        if exists|i: int| 0 <= i < s.len() && (#[trigger] s[i]).0 == k {
            let i = choose|i: int| 0 <= i < s.len() && (#[trigger] s[i]).0 == k;
            if i < s.len() - 1 {
                assert(s.drop_last()[i].0 == k);
            }
        }
    }
}

/// With no key repeated, the map returns the player of the pair that
/// carries the key.
proof fn lemma_map_of_get(s: Seq<(u64, u64)>, i: int)
    requires
        0 <= i < s.len(),
        forall|a: int, b: int| 0 <= a < b < s.len() ==> (#[trigger] s[a]).0 != (#[trigger] s[b]).0,
    ensures
        map_of(s).contains_key(s[i].0),
        map_of(s)[s[i].0] == s[i].1,
    decreases s.len(),
{
    if i == s.len() - 1 {
    } else {
        lemma_map_of_get(s.drop_last(), i);
        assert(s.drop_last()[i] == s[i]);
        assert(s[i].0 != s[s.len() - 1].0);
    }
}

/// Registry of resolved animation-player back-references: for each actor
/// root entity, the animation-player entity discovered under it.
#[derive(Clone, PartialEq, Eq, Debug)]
pub struct AnimatorLinks {
    pairs: Vec<(u64, u64)>,
}

impl View for AnimatorLinks {
    type V = Map<u64, u64>;

    closed spec fn view(&self) -> Map<u64, u64> {
        map_of(self.pairs@)
    }
}

impl AnimatorLinks {
    /// No owner is recorded twice: a link, once created, is never replaced.
    pub closed spec fn wf(self) -> bool {
        forall|a: int, b: int|
            0 <= a < b < self.pairs@.len() ==> (#[trigger] self.pairs@[a]).0 != (
            #[trigger] self.pairs@[b]).0
    }

    /// An empty registry.
    pub fn new() -> (r: AnimatorLinks)
        ensures
            r.wf(),
            r@ == Map::<u64, u64>::empty(),
    {
        AnimatorLinks { pairs: Vec::new() }
    }

    /// Whether `owner` already has a resolved animation player.
    pub fn is_linked(&self, owner: u64) -> (b: bool)
        requires
            self.wf(),
        ensures
            b == self@.contains_key(owner),
    {
        proof {
            lemma_map_of_contains(self.pairs@, owner);
        }
        let n: usize = self.pairs.len();
        let mut idx: usize = 0;
        while idx < n
            invariant
                n == self.pairs@.len(),
                0 <= idx <= n,
                forall|j: int| 0 <= j < idx ==> (#[trigger] self.pairs@[j]).0 != owner,
            decreases n - idx,
        {
            if self.pairs[idx].0 == owner {
                proof {
                    lemma_map_of_contains(self.pairs@, owner);
                    assert(self.pairs@[idx as int].0 == owner);
                }
                return true;
            }
            idx = idx + 1;
        }
        false
    }

    /// The animation player recorded for `owner`, if the link has resolved.
    pub fn player_of(&self, owner: u64) -> (r: Option<u64>)
        requires
            self.wf(),
        ensures
            r is Some <==> self@.contains_key(owner),
            r matches Some(p) ==> self@[owner] == p,
    {
        proof {
            lemma_map_of_contains(self.pairs@, owner);
        }
        let n: usize = self.pairs.len();
        let mut idx: usize = 0;
        while idx < n
            invariant
                n == self.pairs@.len(),
                0 <= idx <= n,
                self.wf(),
                forall|j: int| 0 <= j < idx ==> (#[trigger] self.pairs@[j]).0 != owner,
            decreases n - idx,
        {
            if self.pairs[idx].0 == owner {
                proof {
                    lemma_map_of_get(self.pairs@, idx as int);
                }
                return Some(self.pairs[idx].1);
            }
            idx = idx + 1;
        }
        None
    }

    /// Records the animation player found under `owner`.  Idempotent: an
    /// owner that is already linked keeps its original player, and the call
    /// reports whether a new link was created.
    pub fn link(&mut self, owner: u64, player: u64) -> (added: bool)
        requires
            old(self).wf(),
        ensures
            final(self).wf(),
            added == !old(self)@.contains_key(owner),
            final(self)@ == if added {
                old(self)@.insert(owner, player)
            } else {
                old(self)@
            },
    {
        if self.is_linked(owner) {
            false
        } else {
            proof {
                lemma_map_of_contains(self.pairs@, owner);
            }
            self.pairs.push((owner, player));
            proof {
                assert(self.pairs@.drop_last() =~= old(self).pairs@);
            }
            true
        }
    }
}

} // verus!
