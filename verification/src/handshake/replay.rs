//! The replay memory of a control channel.
//!
//! The memory holds the nonces of the acks that were accepted last, oldest
//! first: no nonce twice, and never more than its window allows. When a new
//! nonce comes in and the window is full, the oldest is forgotten for it.

use crate::bytes::{ct_eq, to_vec};
use vstd::prelude::*;

verus! {

/// How many nonces a channel remembers where nothing else is configured.
pub const DEFAULT_REPLAY_WINDOW: usize = 1024;

/// No nonce stands twice in the list.
pub open spec fn no_duplicates(seen: Seq<Seq<u8>>) -> bool {
    forall|i: int, j: int| 0 <= i < j < seen.len() ==> seen[i] != seen[j]
}

/// The newest `window` entries of a list of nonces.
pub open spec fn newest(seen: Seq<Seq<u8>>, window: usize) -> Seq<Seq<u8>> {
    if seen.len() > window {
        seen.skip(seen.len() - window)
    } else {
        seen
    }
}

/// The nonces that are remembered once `nonce` was accepted: a nonce that
/// is remembered already changes nothing; a new one is the newest, and
/// where the window is full, the oldest is forgotten for it.
pub open spec fn remembered(seen: Seq<Seq<u8>>, nonce: Seq<u8>, window: usize) -> Seq<Seq<u8>> {
    if seen.contains(nonce) {
        seen
    } else {
        newest(seen.push(nonce), window)
    }
}

/// The byte strings that a list of vectors holds.
pub open spec fn contents(nonces: Seq<Vec<u8>>) -> Seq<Seq<u8>> {
    nonces.map_values(|nonce: Vec<u8>| nonce@)
}

/// The nonces of the acks that a channel accepted last.
#[derive(Debug)]
pub struct ReplayWindow {
    nonces: Vec<Vec<u8>>,
    window: usize,
}

impl View for ReplayWindow {
    type V = Seq<Seq<u8>>;

    closed spec fn view(&self) -> Seq<Seq<u8>> {
        contents(self.nonces@)
    }
}

impl ReplayWindow {
    #[verifier::type_invariant]
    spec fn well_formed(self) -> bool {
        no_duplicates(contents(self.nonces@)) && self.nonces@.len() <= self.window
    }

    /// How many nonces are remembered at most.
    pub closed spec fn window_spec(&self) -> usize {
        self.window
    }

    /// An empty memory for up to `window` nonces.
    pub fn new(window: usize) -> (memory: Self)
        ensures
            memory@ == Seq::<Seq<u8>>::empty(),
            memory.window_spec() == window,
    {
        let memory = ReplayWindow { nonces: Vec::new(), window };
        assert(memory@ =~= Seq::<Seq<u8>>::empty());
        memory
    }

    /// How many nonces are remembered at most. There are never more in
    /// the memory, and none of them twice.
    pub fn window(&self) -> (window: usize)
        ensures
            window == self.window_spec(),
            self@.len() <= window,
            no_duplicates(self@),
    {
        proof {
            use_type_invariant(self);
        }
        self.window
    }

    /// Whether a nonce is remembered.
    pub fn contains(&self, nonce: &[u8]) -> (found: bool)
        ensures
            found == self@.contains(nonce@),
    {
        let mut i: usize = 0;
        while i < self.nonces.len()
            invariant
                i <= self.nonces.len(),
                forall|j: int| 0 <= j < i ==> (#[trigger] self@[j]) != nonce@,
            decreases self.nonces.len() - i,
        {
            if ct_eq(self.nonces[i].as_slice(), nonce) {
                assert(self@[i as int] == nonce@);
                return true;
            }
            i += 1;
        }
        false
    }

    /// A copy of the nonces from position `start` on.
    fn newer_than(&self, start: usize) -> (kept: Vec<Vec<u8>>)
        requires
            start <= self@.len(),
        ensures
            contents(kept@) == self@.skip(start as int),
    {
        let mut kept: Vec<Vec<u8>> = Vec::new();
        let mut i: usize = start;
        while i < self.nonces.len()
            invariant
                start <= i <= self.nonces.len(),
                contents(kept@) == self@.subrange(start as int, i as int),
            decreases self.nonces.len() - i,
        {
            let ghost prior = contents(kept@);
            kept.push(to_vec(self.nonces[i].as_slice()));
            proof {
                assert(self@[i as int] == self.nonces@[i as int]@);
                assert(contents(kept@) =~= prior.push(self@[i as int]));
                assert(prior.push(self@[i as int]) =~= self@.subrange(start as int, i + 1));
            }
            i += 1;
        }
        assert(self@.subrange(start as int, self.nonces.len() as int) =~= self@.skip(start as int));
        kept
    }

    /// Takes a nonce into the memory, as [`remembered`] says.
    pub fn remember(&mut self, nonce: &[u8])
        ensures
            final(self)@ == remembered(old(self)@, nonce@, old(self).window_spec()),
            final(self).window_spec() == old(self).window_spec(),
    {
        proof {
            use_type_invariant(&*self);
        }
        if self.contains(nonce) {
            return ;
        }
        if self.window == 0 {
            assert(self@ =~= self@.push(nonce@).skip(1));
            return ;
        }
        let start: usize = if self.nonces.len() == self.window {
            1
        } else {
            0
        };
        let mut kept = self.newer_than(start);
        let ghost before = self@;
        let ghost tail = contents(kept@);
        kept.push(to_vec(nonce));
        proof {
            assert(contents(kept@) =~= tail.push(nonce@));
            assert(tail.push(nonce@) =~= newest(before.push(nonce@), self.window));
            assert forall|i: int, j: int| 0 <= i < j < contents(kept@).len() implies contents(
                kept@,
            )[i] != contents(kept@)[j] by {
                assert(contents(kept@)[i] == before[start + i]);
                if j < tail.len() {
                    assert(contents(kept@)[j] == before[start + j]);
                } else {
                    assert(contents(kept@)[j] == nonce@);
                }
            }
        }
        self.nonces = kept;
    }

    /// Changes the window. Where more nonces are remembered than the new
    /// window allows, the oldest are forgotten.
    pub fn resize(&mut self, window: usize)
        ensures
            final(self)@ == newest(old(self)@, window),
            final(self).window_spec() == window,
    {
        proof {
            use_type_invariant(&*self);
        }
        if self.nonces.len() > window {
            let start = self.nonces.len() - window;
            let kept = self.newer_than(start);
            proof {
                let before = self@;
                assert(contents(kept@).len() == window);
                assert(kept@.len() == window);
                assert forall|i: int, j: int| 0 <= i < j < contents(kept@).len() implies contents(
                    kept@,
                )[i] != contents(kept@)[j] by {
                    assert(contents(kept@)[i] == before[start + i]);
                    assert(contents(kept@)[j] == before[start + j]);
                }
                assert(no_duplicates(contents(kept@)));
            }
            self.nonces = kept;
        }
        self.window = window;
    }
}

} // verus!
