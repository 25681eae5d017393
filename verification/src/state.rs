//! The channel and account registries.
//!
//! Both registries are populated by the channel handshake collaborator when a
//! channel is opened, and are read-only to the rest of this crate: the sender
//! side resolves the local channel bound to a connection, and the host side
//! resolves the interchain account delegated to a (channel, controller) pair.

use vstd::prelude::*;

verus! {

/// A finite map represented as a vector of entries with pairwise-distinct
/// keys, abstracted as a `Map` from the keys' mathematical values to the
/// values' text.
pub closed spec fn entries_map<K, KV>(s: Seq<(K, String)>, key_of: spec_fn(K) -> KV) -> Map<
    KV,
    Seq<char>,
>
    decreases s.len(),
{
    if s.len() == 0 {
        Map::empty()
    } else {
        entries_map(s.drop_last(), key_of).insert(key_of(s.last().0), s.last().1@)
    }
}

/// Pairwise-distinct keys.
pub open spec fn distinct_keys<K, KV>(s: Seq<(K, String)>, key_of: spec_fn(K) -> KV) -> bool {
    forall|i: int, j: int| 0 <= i < j < s.len() ==> key_of(s[i].0) != key_of(s[j].0)
}

proof fn lemma_entries_map_contains<K, KV>(s: Seq<(K, String)>, key_of: spec_fn(K) -> KV)
    ensures
        forall|k: KV|
            entries_map(s, key_of).contains_key(k) <==> exists|i: int|
                0 <= i < s.len() && key_of(#[trigger] s[i].0) == k,
    decreases s.len(),
{
    if s.len() > 0 {
        lemma_entries_map_contains(s.drop_last(), key_of);
        assert forall|k: KV| entries_map(s, key_of).contains_key(k) implies exists|i: int|
            0 <= i < s.len() && key_of(#[trigger] s[i].0) == k by {
            if key_of(s.last().0) == k {
                assert(key_of(s[s.len() - 1].0) == k);
            } else {
                assert(entries_map(s.drop_last(), key_of).contains_key(k));
                let i = choose|i: int| 0 <= i < s.drop_last().len() && key_of(
                    #[trigger] s.drop_last()[i].0,
                ) == k;
                assert(s.drop_last()[i] == s[i]);
                assert(key_of(s[i].0) == k);
            }
        }
        assert forall|k: KV|
            (exists|i: int| 0 <= i < s.len() && key_of(#[trigger] s[i].0) == k) implies entries_map(
            s,
            key_of,
        ).contains_key(k) by {
            let i = choose|i: int| 0 <= i < s.len() && key_of(#[trigger] s[i].0) == k;
            if i < s.len() - 1 {
                assert(s.drop_last()[i] == s[i]);
                assert(key_of(s.drop_last()[i].0) == k);
                assert(entries_map(s.drop_last(), key_of).contains_key(k));
            } else {
                assert(key_of(s.last().0) == k);
            }
        }
    }
}

proof fn lemma_entries_map_get<K, KV>(s: Seq<(K, String)>, key_of: spec_fn(K) -> KV, i: int)
    requires
        distinct_keys(s, key_of),
        0 <= i < s.len(),
    ensures
        entries_map(s, key_of).contains_key(key_of(s[i].0)),
        entries_map(s, key_of)[key_of(s[i].0)] == s[i].1@,
    decreases s.len(),
{
    if i < s.len() - 1 {
        assert(distinct_keys(s.drop_last(), key_of));
        lemma_entries_map_get(s.drop_last(), key_of, i);
        assert(key_of(s[s.len() - 1].0) != key_of(s[i].0));
    }
}

proof fn lemma_entries_map_absent<K, KV>(s: Seq<(K, String)>, key_of: spec_fn(K) -> KV, k: KV)
    requires
        forall|i: int| 0 <= i < s.len() ==> key_of(#[trigger] s[i].0) != k,
    ensures
        !entries_map(s, key_of).contains_key(k),
    decreases s.len(),
{
    if s.len() > 0 {
        lemma_entries_map_absent(s.drop_last(), key_of, k);
    }
}

proof fn lemma_entries_map_push<K, KV>(s: Seq<(K, String)>, key_of: spec_fn(K) -> KV, e: (
    K,
    String,
))
    ensures
        entries_map(s.push(e), key_of) == entries_map(s, key_of).insert(key_of(e.0), e.1@),
{
    assert(s.push(e).drop_last() =~= s);
    assert(s.push(e).last() == e);
}

/// The key abstraction of the channel registry: the connection identifier.
pub open spec fn connection_key(k: String) -> Seq<char> {
    k@
}

/// The key abstraction of the account registry: the (channel, controller)
/// pair.
pub open spec fn account_key(k: (String, String)) -> (Seq<char>, Seq<char>) {
    (k.0@, k.1@)
}

/// The sender-side registry binding a connection identifier to the local
/// channel opened over it.
pub struct ChannelRegistry {
    entries: Vec<(String, String)>,
}

impl View for ChannelRegistry {
    type V = Map<Seq<char>, Seq<char>>;

    closed spec fn view(&self) -> Map<Seq<char>, Seq<char>> {
        entries_map(self.entries@, |k: String| connection_key(k))
    }
}

impl ChannelRegistry {
    /// Pairwise-distinct connection identifiers: the handshake binds each
    /// connection at most once.
    pub closed spec fn wf(self) -> bool {
        distinct_keys(self.entries@, |k: String| connection_key(k))
    }

    /// An empty registry.
    pub fn new() -> (r: ChannelRegistry)
        ensures
            r.wf(),
            r@ == Map::<Seq<char>, Seq<char>>::empty(),
    {
        ChannelRegistry { entries: Vec::new() }
    }

    /// Binds a connection to a channel.  Performed by the handshake
    /// collaborator, exactly once per connection.
    pub fn bind(&mut self, connection_id: String, channel_id: String)
        requires
            old(self).wf(),
            !old(self)@.contains_key(connection_id@),
        ensures
            final(self).wf(),
            final(self)@ == old(self)@.insert(connection_id@, channel_id@),
    {
        proof {
            lemma_entries_map_contains(self.entries@, |k: String| connection_key(k));
            lemma_entries_map_push(
                self.entries@,
                |k: String| connection_key(k),
                (connection_id, channel_id),
            );
        }
        self.entries.push((connection_id, channel_id));
    }

    /// Looks up the channel bound to a connection.
    pub fn lookup(&self, connection_id: &String) -> (r: Option<String>)
        requires
            self.wf(),
        ensures
            match r {
                Some(v) => self@.contains_key(connection_id@) && v@ == self@[connection_id@],
                None => !self@.contains_key(connection_id@),
            },
    {
        let n = self.entries.len();
        let mut i: usize = 0;
        while i < n
            invariant
                self.wf(),
                n == self.entries@.len(),
                i <= n,
                forall|j: int| 0 <= j < i ==> #[trigger] self.entries@[j].0@ != connection_id@,
            decreases n - i,
        {
            if self.entries[i].0 == *connection_id {
                let v = self.entries[i].1.clone();
                proof {
                    lemma_entries_map_get(self.entries@, |k: String| connection_key(k), i as int);
                }
                return Some(v);
            }
            i += 1;
        }
        proof {
            lemma_entries_map_absent(self.entries@, |k: String| connection_key(k), connection_id@);
        }
        None
    }
}

/// The host-side registry binding a (channel, controller) pair to the
/// interchain account that acts on the controller's behalf.
pub struct AccountRegistry {
    entries: Vec<((String, String), String)>,
}

impl View for AccountRegistry {
    type V = Map<(Seq<char>, Seq<char>), Seq<char>>;

    closed spec fn view(&self) -> Map<(Seq<char>, Seq<char>), Seq<char>> {
        entries_map(self.entries@, |k: (String, String)| account_key(k))
    }
}

impl AccountRegistry {
    /// Pairwise-distinct (channel, controller) pairs: the handshake delegates
    /// an account to each pair at most once.
    pub closed spec fn wf(self) -> bool {
        distinct_keys(self.entries@, |k: (String, String)| account_key(k))
    }

    /// An empty registry.
    pub fn new() -> (r: AccountRegistry)
        ensures
            r.wf(),
            r@ == Map::<(Seq<char>, Seq<char>), Seq<char>>::empty(),
    {
        AccountRegistry { entries: Vec::new() }
    }

    /// Delegates an account to a (channel, controller) pair.  Performed by
    /// the handshake collaborator, exactly once per pair.
    pub fn bind(&mut self, channel_id: String, controller: String, account: String)
        requires
            old(self).wf(),
            !old(self)@.contains_key((channel_id@, controller@)),
        ensures
            final(self).wf(),
            final(self)@ == old(self)@.insert((channel_id@, controller@), account@),
    {
        proof {
            lemma_entries_map_contains(self.entries@, |k: (String, String)| account_key(k));
            lemma_entries_map_push(
                self.entries@,
                |k: (String, String)| account_key(k),
                ((channel_id, controller), account),
            );
        }
        self.entries.push(((channel_id, controller), account));
    }

    /// Looks up the account delegated to a (channel, controller) pair.
    pub fn may_load(&self, channel_id: &String, controller: &String) -> (r: Option<String>)
        requires
            self.wf(),
        ensures
            match r {
                Some(v) => self@.contains_key((channel_id@, controller@)) && v@ == self@.index(
                    (channel_id@, controller@),
                ),
                None => !self@.contains_key((channel_id@, controller@)),
            },
    {
        let n = self.entries.len();
        let mut i: usize = 0;
        while i < n
            invariant
                self.wf(),
                n == self.entries@.len(),
                i <= n,
                forall|j: int|
                    0 <= j < i ==> account_key(#[trigger] self.entries@[j].0) != (
                        channel_id@,
                        controller@,
                    ),
            decreases n - i,
        {
            if self.entries[i].0.0 == *channel_id && self.entries[i].0.1 == *controller {
                let v = self.entries[i].1.clone();
                proof {
                    lemma_entries_map_get(
                        self.entries@,
                        |k: (String, String)| account_key(k),
                        i as int,
                    );
                }
                return Some(v);
            }
            i += 1;
        }
        proof {
            lemma_entries_map_absent(
                self.entries@,
                |k: (String, String)| account_key(k),
                (channel_id@, controller@),
            );
        }
        None
    }
}

} // verus!
