//! Who watches a game: each subscriber token with the connection that
//! receives the game's notifications.
use vstd::prelude::*;

verus! {

/// The model of a subscriber list: (token, connection) pairs in the order
/// they were added.
pub type SubscriberSeq = Seq<(Seq<char>, u64)>;

/// No token occurs twice.
pub open spec fn keys_unique(s: SubscriberSeq) -> bool {
    forall|i: int, j: int| 0 <= i < j < s.len() ==> #[trigger] s[i].0 != #[trigger] s[j].0
}

/// The test that keeps every entry whose token is not `token`.
pub open spec fn other_than(token: Seq<char>) -> spec_fn((Seq<char>, u64)) -> bool {
    |e: (Seq<char>, u64)| e.0 != token
}

/// The list without the entry of `token`.
pub open spec fn without_token(s: SubscriberSeq, token: Seq<char>) -> SubscriberSeq {
    s.filter(other_than(token))
}

/// The list after `token` subscribes through `conn`: an earlier entry of the
/// same token is replaced.
pub open spec fn with_subscriber(s: SubscriberSeq, token: Seq<char>, conn: u64) -> SubscriberSeq {
    without_token(s, token).push((token, conn))
}

/// Whether `token` is subscribed.
pub open spec fn has_token(s: SubscriberSeq, token: Seq<char>) -> bool {
    exists|i: int| 0 <= i < s.len() && (#[trigger] s[i]).0 == token
}

/// The connections of all subscribers, in list order.
pub open spec fn connections(s: SubscriberSeq) -> Seq<u64> {
    s.map_values(|e: (Seq<char>, u64)| e.1)
}

/// Removing a token keeps tokens unique, leaves no entry of that token and
/// only keeps entries that were there.
pub proof fn lemma_without_token(s: SubscriberSeq, token: Seq<char>)
    requires
        keys_unique(s),
    ensures
        keys_unique(without_token(s, token)),
        !has_token(without_token(s, token), token),
        forall|e: (Seq<char>, u64)| #[trigger] without_token(s, token).contains(e) ==> s.contains(e),
    decreases s.len(),
{
    let f = without_token(s, token);
    if s.len() == 0 {
        reveal(Seq::filter);
        assert(f.len() == 0);
    } else {
        let init = s.drop_last();
        let last = s.last();
        assert(init.push(last) =~= s);
        lemma_without_token(init, token);
        init.lemma_filter_push(last, other_than(token));
        let g = without_token(init, token);
        if last.0 != token {
            assert(f == g.push(last));
            assert forall|i: int, j: int| 0 <= i < j < f.len() implies #[trigger] f[i].0 != #[trigger] f[j].0 by {
                assert(f[i] == g[i]);
                if j == f.len() - 1 {
                    assert(g.contains(f[i]));
                    assert(init.contains(f[i]));
                    let k = choose|k: int| 0 <= k < init.len() && init[k] == f[i];
                    assert(s[k] == f[i]);
                    assert(s[s.len() - 1] == last);
                } else {
                    assert(f[j] == g[j]);
                }
            }
            assert forall|e: (Seq<char>, u64)| f.contains(e) implies s.contains(e) by {
                if e != last {
                    let k = choose|k: int| 0 <= k < f.len() && f[k] == e;
                    assert(k < g.len() && g[k] == e);
                    assert(g.contains(e));
                    let m = choose|m: int| 0 <= m < init.len() && init[m] == e;
                    assert(s[m] == e);
                } else {
                    assert(s[s.len() - 1] == e);
                }
            }
        } else {
            assert(f == g);
            assert forall|e: (Seq<char>, u64)| f.contains(e) implies s.contains(e) by {
                let m = choose|m: int| 0 <= m < init.len() && init[m] == e;
                assert(s[m] == e);
            }
        }
    }
}

/// The subscribers of one game.
#[derive(Debug)]
pub struct Subscribers {
    entries: Vec<(String, u64)>,
}

impl View for Subscribers {
    type V = SubscriberSeq;

    closed spec fn view(&self) -> SubscriberSeq {
        self.entries@.map_values(|e: (String, u64)| (e.0@, e.1))
    }
}

impl Subscribers {
    /// Each token appears at most once.
    #[verifier::type_invariant]
    spec fn unique(self) -> bool {
        keys_unique(self@)
    }

    /// No subscribers.
    pub fn new() -> (subs: Subscribers)
        ensures
            subs@ == Seq::<(Seq<char>, u64)>::empty(),
    {
        let subs = Subscribers { entries: Vec::new() };
        assert(subs@ =~= Seq::<(Seq<char>, u64)>::empty());
        subs
    }

    /// How many tokens are subscribed.
    pub fn len(&self) -> (n: usize)
        ensures
            n == self@.len(),
    {
        self.entries.len()
    }

    /// Removes the entry of `token`, if there is one.
    pub fn remove(&mut self, token: &String)
        ensures
            final(self)@ == without_token(old(self)@, token@),
            keys_unique(final(self)@),
    {
        proof {
            use_type_invariant(&*self);
            lemma_without_token(self@, token@);
        }
        let ghost s = self@;
        let mut kept: Vec<(String, u64)> = Vec::new();
        let mut i: usize = 0;
        while i < self.entries.len()
            invariant
                i <= self.entries.len(),
                s == self.entries@.map_values(|e: (String, u64)| (e.0@, e.1)),
                kept@.map_values(|e: (String, u64)| (e.0@, e.1)) == s.take(i as int).filter(other_than(token@)),
            decreases self.entries.len() - i,
        {
            let ghost before = kept@.map_values(|e: (String, u64)| (e.0@, e.1));
            assert(s.take(i + 1) =~= s.take(i as int).push(s[i as int]));
            proof { s.take(i as int).lemma_filter_push(s[i as int], other_than(token@)); }
            let entry = &self.entries[i];
            if !(entry.0 == *token) {
                kept.push((entry.0.clone(), entry.1));
                assert(kept@.map_values(|e: (String, u64)| (e.0@, e.1)) =~= before.push(s[i as int]));
            }
            i = i + 1;
        }
        assert(s.take(s.len() as int) =~= s);
        self.entries = kept;
        proof { use_type_invariant(&*self); }
    }

    /// Subscribes `token` through `conn`, replacing an earlier entry of the token.
    pub fn insert(&mut self, token: String, conn: u64)
        ensures
            final(self)@ == with_subscriber(old(self)@, token@, conn),
            keys_unique(final(self)@),
    {
        proof {
            use_type_invariant(&*self);
        }
        self.remove(&token);
        let ghost before = self@;
        let ghost t = token@;
        proof {
            lemma_without_token(old(self)@, t);
        }
        assert(!has_token(before, t));
        let mut entries: Vec<(String, u64)> = Vec::new();
        std::mem::swap(&mut entries, &mut self.entries);
        entries.push((token, conn));
        assert(entries@.map_values(|e: (String, u64)| (e.0@, e.1)) =~= before.push((t, conn)));
        assert(keys_unique(before.push((t, conn)))) by {
            assert forall|i: int, j: int| 0 <= i < j < before.len() + 1 implies
                #[trigger] before.push((t, conn))[i].0 != #[trigger] before.push((t, conn))[j].0 by {
                if j == before.len() {
                    assert(before[i].0 != t);
                }
            }
        }
        self.entries = entries;
        proof { use_type_invariant(&*self); }
    }

    /// The connection of every subscriber, in list order.
    pub fn recipients(&self) -> (conns: Vec<u64>)
        ensures
            conns@ == connections(self@),
    {
        let mut conns: Vec<u64> = Vec::new();
        let mut i: usize = 0;
        while i < self.entries.len()
            invariant
                i <= self.entries.len(),
                conns@ == connections(self@).take(i as int),
            decreases self.entries.len() - i,
        {
            conns.push(self.entries[i].1);
            assert(conns@ =~= connections(self@).take(i + 1));
            i = i + 1;
        }
        assert(connections(self@).take(self.entries.len() as int) =~= connections(self@));
        conns
    }
}

} // verus!
