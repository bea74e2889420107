//! The token registry: the latest known snapshot per token identifier.
//!
//! The registry is the single shared owner of all snapshots.  An upsert
//! overwrites the whole entry for its identifier — entries are never
//! merged field by field and never evicted.  Readers receive clones,
//! never aliases into the registry's storage; a surrounding lock (the
//! transport layer's concern) makes each upsert atomic per entry.
//!
//! Abstractly the registry is the map from identifier to snapshot that
//! `view` yields, and `upsert` is exactly `Map::insert`.

use vstd::prelude::*;

verus! {

use crate::token::{TokenData, WebSocketError};

/// The map a sequence of keyed entries stands for, later entries
/// winning.
pub open spec fn map_of(entries: Seq<(String, TokenData)>) -> Map<Seq<char>, TokenData>
    decreases entries.len(),
{
    if entries.len() == 0 {
        Map::empty()
    } else {
        map_of(entries.drop_last()).insert(entries.last().0@, entries.last().1)
    }
}

/// A key is in the map exactly when some entry carries it.
proof fn lemma_map_of_contains(entries: Seq<(String, TokenData)>, k: Seq<char>)
    ensures
        map_of(entries).contains_key(k) <==> exists|i: int|
            0 <= i < entries.len() && (#[trigger] entries[i].0)@ == k,
    decreases entries.len(),
{
    if entries.len() > 0 {
        lemma_map_of_contains(entries.drop_last(), k);
        if entries.last().0@ == k {
            assert(entries[entries.len() - 1].0@ == k);
        } else if map_of(entries).contains_key(k) {
            let i = choose|i: int| 0 <= i < entries.len() - 1 && (#[trigger] entries.drop_last()[i].0)@ == k;
            assert(entries[i].0@ == k);
        } else {
            if exists|i: int| 0 <= i < entries.len() && (#[trigger] entries[i].0)@ == k {
                let i = choose|i: int| 0 <= i < entries.len() && (#[trigger] entries[i].0)@ == k;
                assert(i < entries.len() - 1);
                assert(entries.drop_last()[i].0@ == k);
            }
        }
    }
}

/// No two entries share a key.
pub open spec fn distinct_keys(entries: Seq<(String, TokenData)>) -> bool {
    forall|i: int, j: int|
        0 <= i < j < entries.len() ==> (#[trigger] entries[i].0)@ != (#[trigger] entries[j].0)@
}

/// With distinct keys, the map sends each entry's key to its value.
proof fn lemma_map_of_index(entries: Seq<(String, TokenData)>, i: int)
    requires
        distinct_keys(entries),
        0 <= i < entries.len(),
    ensures
        map_of(entries).contains_key(entries[i].0@),
        map_of(entries)[entries[i].0@] == entries[i].1,
    decreases entries.len(),
{
    lemma_map_of_contains(entries, entries[i].0@);
    if i < entries.len() - 1 {
        assert(distinct_keys(entries.drop_last()));
        assert(entries.drop_last()[i] == entries[i]);
        lemma_map_of_index(entries.drop_last(), i);
        assert(entries[i].0@ != entries.last().0@);
    }
}

/// With distinct keys, dropping entry `i` removes exactly its key.
proof fn lemma_map_of_remove(entries: Seq<(String, TokenData)>, i: int)
    requires
        distinct_keys(entries),
        0 <= i < entries.len(),
    ensures
        map_of(entries.remove(i)) =~= map_of(entries).remove(entries[i].0@),
    decreases entries.len(),
{
    let k = entries[i].0@;
    if i == entries.len() - 1 {
        assert(entries.remove(i) =~= entries.drop_last());
        lemma_map_of_contains(entries.drop_last(), k);
        assert(!map_of(entries.drop_last()).contains_key(k));
        assert(map_of(entries.drop_last()).insert(k, entries.last().1).remove(k) =~= map_of(
            entries.drop_last(),
        ));
    } else {
        assert(distinct_keys(entries.drop_last()));
        assert(entries.drop_last()[i] == entries[i]);
        lemma_map_of_remove(entries.drop_last(), i);
        assert(entries.remove(i).drop_last() =~= entries.drop_last().remove(i));
        assert(entries.remove(i).last() == entries.last());
        assert(entries[entries.len() - 1].0@ != k);
        assert(map_of(entries.remove(i)) == map_of(entries.drop_last().remove(i)).insert(
            entries.last().0@,
            entries.last().1,
        ));
        assert(map_of(entries.drop_last()).remove(k).insert(entries.last().0@, entries.last().1)
            =~= map_of(entries.drop_last()).insert(entries.last().0@, entries.last().1).remove(k));
    }
}

/// With distinct keys, the map holds exactly one key per entry.
proof fn lemma_map_of_dom_len(entries: Seq<(String, TokenData)>)
    requires
        distinct_keys(entries),
    ensures
        map_of(entries).dom().finite(),
        map_of(entries).dom().len() == entries.len(),
    decreases entries.len(),
{
    if entries.len() == 0 {
        assert(map_of(entries).dom() =~= Set::<Seq<char>>::empty());
    } else {
        assert(distinct_keys(entries.drop_last()));
        lemma_map_of_dom_len(entries.drop_last());
        lemma_map_of_contains(entries.drop_last(), entries.last().0@);
        assert(!map_of(entries.drop_last()).contains_key(entries.last().0@));
        assert(map_of(entries).dom() =~= map_of(entries.drop_last()).dom().insert(
            entries.last().0@,
        ));
    }
}

/// The registry.  The entry vector is an implementation detail; the
/// contracts speak of the map it stands for.
pub struct TokenRegistry {
    entries: Vec<(String, TokenData)>,
}

impl View for TokenRegistry {
    type V = Map<Seq<char>, TokenData>;

    closed spec fn view(&self) -> Map<Seq<char>, TokenData> {
        map_of(self.entries@)
    }
}

impl TokenRegistry {
    /// Keys are unique and every stored snapshot is well-formed.
    pub closed spec fn wf(&self) -> bool {
        &&& distinct_keys(self.entries@)
        &&& forall|i: int| 0 <= i < self.entries@.len() ==> (#[trigger] self.entries@[i].1).wf()
    }

    /// The empty registry.
    pub fn new() -> (r: Self)
        ensures
            r.wf(),
            r@ =~= Map::empty(),
    {
        TokenRegistry { entries: Vec::new() }
    }

    /// How many tokens the registry knows.
    pub fn len(&self) -> (r: usize)
        requires
            self.wf(),
        ensures
            r == self@.dom().len(),
    {
        proof {
            lemma_map_of_dom_len(self.entries@);
        }
        self.entries.len()
    }

    /// Inserts or fully replaces the entry for `token.id`: afterwards
    /// the registry is exactly the old map with that one key bound to
    /// this snapshot.  Never fails for a well-formed snapshot.
    pub fn upsert(&mut self, token: TokenData)
        requires
            old(self).wf(),
            token.wf(),
        ensures
            final(self).wf(),
            final(self)@ =~= old(self)@.insert(token.id@, token),
            final(self)@[token.id@] == token,
    {
        let ghost s0 = self.entries@;
        let mut i: usize = 0;
        let mut found: bool = false;
        let mut at: usize = 0;
        while i < self.entries.len()
            invariant
                self.entries@ == s0,
                i <= s0.len(),
                found ==> at < i && s0[at as int].0@ == token.id@,
                !found ==> forall|j: int| 0 <= j < i as int ==> (#[trigger] s0[j].0)@ != token.id@,
            decreases s0.len() - i,
        {
            if !found && self.entries[i].0 == token.id {
                found = true;
                at = i;
            }
            i = i + 1;
        }

        if found {
            let ghost k = s0[at as int].0@;
            proof {
                lemma_map_of_remove(s0, at as int);
            }
            self.entries.remove(at);
            proof {
                assert forall|p: int, q: int| 0 <= p < q < self.entries@.len() implies (
                #[trigger] self.entries@[p].0)@ != (#[trigger] self.entries@[q].0)@ by {
                    if q < at as int {
                        assert(s0[p].0@ != s0[q].0@);
                    } else if p < at as int {
                        assert(s0[p].0@ != s0[q + 1].0@);
                    } else {
                        assert(s0[p + 1].0@ != s0[q + 1].0@);
                    }
                }
                assert forall|j: int| 0 <= j < self.entries@.len() implies (#[trigger] self.entries@[j].0)@
                    != token.id@ by {
                    if j < at as int {
                        assert(s0[j].0@ != s0[at as int].0@);
                    } else {
                        assert(s0[j + 1].0@ != s0[at as int].0@);
                    }
                }
            }
            let ghost s1 = self.entries@;
            let key = token.id.clone();
            self.entries.push((key, token));
            proof {
                assert(self.entries@.drop_last() =~= s1);
                assert(self@ == map_of(s1).insert(token.id@, token));
                assert(map_of(s0).remove(k).insert(token.id@, token) =~= map_of(s0).insert(
                    token.id@,
                    token,
                ));
                assert forall|p: int, q: int| 0 <= p < q < self.entries@.len() implies (
                #[trigger] self.entries@[p].0)@ != (#[trigger] self.entries@[q].0)@ by {}
            }
        } else {
            let ghost s1 = self.entries@;
            let key = token.id.clone();
            self.entries.push((key, token));
            proof {
                assert(self.entries@.drop_last() =~= s1);
                assert forall|p: int, q: int| 0 <= p < q < self.entries@.len() implies (
                #[trigger] self.entries@[p].0)@ != (#[trigger] self.entries@[q].0)@ by {
                    if q == self.entries@.len() - 1 {
                        assert(s0[p].0@ != token.id@);
                    }
                }
            }
        }
    }

    /// The stored snapshot for an identifier, when one exists.
    pub fn get(&self, id: &String) -> (r: Option<&TokenData>)
        requires
            self.wf(),
        ensures
            r is Some <==> self@.contains_key(id@),
            r matches Some(t) ==> self@.contains_key(id@) && *t == self@[id@],
    {
        let ghost s = self.entries@;
        let mut i: usize = 0;
        while i < self.entries.len()
            invariant
                self.wf(),
                s == self.entries@,
                i <= s.len(),
                forall|j: int| 0 <= j < i as int ==> (#[trigger] s[j].0)@ != id@,
            decreases s.len() - i,
        {
            if self.entries[i].0 == *id {
                proof {
                    lemma_map_of_index(s, i as int);
                }
                return Some(&self.entries[i].1);
            }
            i = i + 1;
        }
        proof {
            lemma_map_of_contains(s, id@);
        }
        None
    }

    /// A consistent point-in-time copy of every entry, for iteration by
    /// consumers: every pair is in the map, pairwise distinct, and all
    /// of the map is covered.
    pub fn get_all_snapshot(&self) -> (r: Vec<(String, TokenData)>)
        requires
            self.wf(),
        ensures
            r@.len() == self@.dom().len(),
            forall|i: int|
                0 <= i < r@.len() ==> self@.contains_key((#[trigger] r@[i].0)@) && self@[r@[i].0@]
                    == r@[i].1,
            distinct_keys(r@),
            forall|k: Seq<char>|
                self@.contains_key(k) ==> exists|i: int| 0 <= i < r@.len() && (#[trigger] r@[i].0)@
                    == k,
    {
        let ghost s = self.entries@;
        let mut r: Vec<(String, TokenData)> = Vec::new();
        let mut i: usize = 0;
        while i < self.entries.len()
            invariant
                self.wf(),
                s == self.entries@,
                i <= s.len(),
                r@.len() == i as int,
                forall|j: int| 0 <= j < i as int ==> #[trigger] r@[j] == s[j],
            decreases s.len() - i,
        {
            let key = self.entries[i].0.clone();
            let value = self.entries[i].1.clone();
            r.push((key, value));
            i = i + 1;
        }
        proof {
            lemma_map_of_dom_len(s);
            assert forall|i: int|
                0 <= i < r@.len() implies self@.contains_key((#[trigger] r@[i].0)@)
                && self@[r@[i].0@] == r@[i].1 by {
                lemma_map_of_index(s, i);
            }
            assert forall|k: Seq<char>| self@.contains_key(k) implies exists|i: int|
                0 <= i < r@.len() && (#[trigger] r@[i].0)@ == k by {
                lemma_map_of_contains(s, k);
                let i = choose|i: int| 0 <= i < s.len() && (#[trigger] s[i].0)@ == k;
                assert(r@[i].0@ == k);
            }
        }
        r
    }
}

impl Default for TokenRegistry {
    /// The empty registry.
    fn default() -> (r: Self)
        ensures
            r.wf(),
            r@ =~= Map::empty(),
    {
        TokenRegistry { entries: Vec::new() }
    }
}

/// Re-inserting an identical snapshot is idempotent: the registry
/// after two upserts of `t` equals the registry after one, and the
/// resulting entry is the inserted snapshot itself.
pub proof fn lemma_upsert_idempotent(m: Map<Seq<char>, TokenData>, t: TokenData)
    ensures
        m.insert(t.id@, t).insert(t.id@, t) =~= m.insert(t.id@, t),
        m.insert(t.id@, t)[t.id@] == t,
{
}

/// Sequential upserts to one identifier obey last-write-wins: the
/// second snapshot fully replaces the first, nothing is carried over.
pub proof fn lemma_upsert_last_write_wins(
    m: Map<Seq<char>, TokenData>,
    t1: TokenData,
    t2: TokenData,
)
    requires
        t1.id@ == t2.id@,
    ensures
        m.insert(t1.id@, t1).insert(t2.id@, t2) =~= m.insert(t2.id@, t2),
        m.insert(t1.id@, t1).insert(t2.id@, t2)[t2.id@] == t2,
{
}

/// A processing store that keeps only snapshots that pass validation.
pub struct TokenProcessor {
    tokens: Vec<TokenData>,
}

impl TokenProcessor {
    /// Everything stored here carries a name and a token address.
    pub closed spec fn wf(&self) -> bool {
        forall|i: int|
            0 <= i < self.tokens@.len() ==> (#[trigger] self.tokens@[i]).attributes.name is Some
                && self.tokens@[i].attributes.token_address is Some
    }

    /// The stored snapshots, in arrival order.
    pub closed spec fn view(&self) -> Seq<TokenData> {
        self.tokens@
    }

    /// The empty store.
    pub fn new() -> (r: Self)
        ensures
            r.wf(),
            r@ =~= Seq::<TokenData>::empty(),
    {
        TokenProcessor { tokens: Vec::new() }
    }

    /// A snapshot is accepted only with a name and a token address.
    fn validate_token(&self, token: &TokenData) -> (r: bool)
        ensures
            r == (token.attributes.name is Some && token.attributes.token_address is Some),
    {
        token.attributes.name.is_some() && token.attributes.token_address.is_some()
    }

    /// Appends a valid snapshot; an invalid one is rejected and the
    /// store is left unchanged.
    pub fn process_token(&mut self, token: TokenData) -> (r: Result<(), WebSocketError>)
        requires
            old(self).wf(),
        ensures
            final(self).wf(),
            r is Ok <==> (token.attributes.name is Some && token.attributes.token_address
                is Some),
            r is Ok ==> final(self)@ =~= old(self)@.push(token),
            r is Err ==> final(self)@ =~= old(self)@,
            r matches Err(e) ==> e matches WebSocketError::ValidationError(_),
    {
        if !self.validate_token(&token) {
            return Err(WebSocketError::ValidationError("Invalid token data".to_owned()));
        }
        self.tokens.push(token);
        Ok(())
    }
}

} // verus!
