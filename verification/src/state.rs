//! The connected-channel record: a persistent mapping from channel
//! identifier to a presence marker.
//!
//! The host's keyed store is modelled as an explicit value handed to each
//! endpoint. Observably the store is the map from channel identifier to
//! `true`; keys are only ever added, never removed, so the mapping grows
//! monotonically.

use vstd::prelude::*;

verus! {

/// The set of connected channels, viewed as a map from channel identifier
/// to `true`.
#[derive(Debug)]
pub struct ChannelStore {
    ids: Vec<String>,
}

impl View for ChannelStore {
    type V = Map<Seq<char>, bool>;

    closed spec fn view(&self) -> Map<Seq<char>, bool> {
        Map::new(
            |k: Seq<char>|
                exists|i: int| 0 <= i < self.ids@.len() && self.ids@[i]@ == k,
            |k: Seq<char>| true,
        )
    }
}

impl ChannelStore {
    /// Each identifier is recorded at most once.
    #[verifier::type_invariant]
    spec fn wf(&self) -> bool {
        forall|i: int, j: int|
            0 <= i < j < self.ids@.len() ==> self.ids@[i]@ != self.ids@[j]@
    }

    /// An empty store: no channel is connected.
    pub fn new() -> (s: ChannelStore)
        ensures
            s@ == Map::<Seq<char>, bool>::empty(),
    {
        let s = ChannelStore { ids: Vec::new() };
        proof {
            assert(s@ =~= Map::<Seq<char>, bool>::empty());
        }
        s
    }

    /// Record that `channel_id` is connected. Recording an identifier that
    /// is already present leaves the observable mapping unchanged.
    pub fn save(&mut self, channel_id: String)
        ensures
            final(self)@ == old(self)@.insert(channel_id@, true),
    {
        proof {
            use_type_invariant(&*self);
        }
        let n = self.ids.len();
        let mut i: usize = 0;
        while i < n
            invariant
                n == self.ids@.len(),
                i <= n,
                self == old(self),
                forall|j: int| 0 <= j < i ==> self.ids@[j]@ != channel_id@,
            decreases n - i,
        {
            if self.ids[i] == channel_id {
                proof {
                    assert(self@.contains_key(channel_id@));
                    assert(self@ =~= old(self)@.insert(channel_id@, true));
                }
                return;
            }
            i += 1;
        }
        proof {
            use_type_invariant(&*self);
        }
        let mut ids: Vec<String> = Vec::new();
        std::mem::swap(&mut ids, &mut self.ids);
        ids.push(channel_id);
        self.ids = ids;
        proof {
            assert forall|k: Seq<char>| #[trigger] self@.contains_key(k)
                <==> old(self)@.insert(channel_id@, true).contains_key(k) by {
                if old(self)@.insert(channel_id@, true).contains_key(k) {
                    if k == channel_id@ {
                        assert(self.ids@[self.ids@.len() - 1]@ == k);
                    } else {
                        let w = choose|i: int|
                            0 <= i < old(self).ids@.len() && old(self).ids@[i]@ == k;
                        assert(self.ids@[w]@ == k);
                    }
                }
            }
            assert(self@ =~= old(self)@.insert(channel_id@, true));
        }
    }

    /// Law: every channel present in the store carries the marker `true`;
    /// presence of a key is equivalent to the channel being connected.
    pub proof fn lemma_present_means_true(&self)
        ensures
            forall|k: Seq<char>| self@.contains_key(k) ==> self@[k] == true,
    {
    }

    /// Whether `channel_id` has been recorded as connected.
    pub fn is_connected(&self, channel_id: &String) -> (b: bool)
        ensures
            b == self@.contains_key(channel_id@),
    {
        let n = self.ids.len();
        let mut i: usize = 0;
        while i < n
            invariant
                n == self.ids@.len(),
                i <= n,
                forall|j: int| 0 <= j < i ==> self.ids@[j]@ != channel_id@,
            decreases n - i,
        {
            if self.ids[i] == *channel_id {
                proof {
                    assert(self@.contains_key(channel_id@));
                }
                return true;
            }
            i += 1;
        }
        proof {
            assert(!self@.contains_key(channel_id@));
        }
        false
    }
}

} // verus!
