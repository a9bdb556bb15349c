//! The pending-authentication store: a mapping from CSRF token to the
//! nonce and PKCE verifier of a login that was initiated but not yet
//! completed.
//!
//! `take` is the only removal path: it atomically removes and returns the
//! entry, so an entry is consumed exactly once and a replayed callback
//! finds nothing.  A concurrent caller wraps the whole store in one
//! mutual-exclusion region and releases it before any network call.

use vstd::prelude::*;

verus! {

/// What a pending login remembers: the nonce bound into the identity
/// token and the PKCE verifier for the code exchange.  The CSRF token is
/// the map key, not a field.
pub struct AuthState {
    pub nonce: String,
    pub pkce_verifier: String,
}

/// The mathematical content of an [`AuthState`].
pub ghost struct AuthStateView {
    pub nonce: Seq<char>,
    pub pkce_verifier: Seq<char>,
}

impl View for AuthState {
    type V = AuthStateView;

    open spec fn view(&self) -> AuthStateView {
        AuthStateView { nonce: self.nonce@, pkce_verifier: self.pkce_verifier@ }
    }
}

/// The mapping described by a sequence of key-value entries, later
/// entries winning.
pub open spec fn map_of(s: Seq<(String, AuthState)>) -> Map<Seq<char>, AuthStateView>
    decreases s.len(),
{
    if s.len() == 0 {
        Map::empty()
    } else {
        map_of(s.drop_last()).insert(s.last().0@, s.last().1@)
    }
}

/// Whether some entry of `s` carries the key `k`.
pub open spec fn has_key(s: Seq<(String, AuthState)>, k: Seq<char>) -> bool {
    exists|i: int| 0 <= i < s.len() && s[i].0@ == k
}

/// No two entries carry the same key.
pub open spec fn unique_keys(s: Seq<(String, AuthState)>) -> bool {
    forall|i: int, j: int| 0 <= i < j < s.len() ==> s[i].0@ != s[j].0@
}

/// The pending-authentication store.  Its view is the mapping from CSRF
/// token to pending record.
pub struct AuthStateStore {
    entries: Vec<(String, AuthState)>,
}

impl View for AuthStateStore {
    type V = Map<Seq<char>, AuthStateView>;

    closed spec fn view(&self) -> Map<Seq<char>, AuthStateView> {
        map_of(self.entries@)
    }
}

proof fn lemma_map_of_contains(s: Seq<(String, AuthState)>, k: Seq<char>)
    ensures
        map_of(s).contains_key(k) <==> has_key(s, k),
    decreases s.len(),
{
    if s.len() > 0 {
        lemma_map_of_contains(s.drop_last(), k);
        if s.last().0@ == k {
            assert(s[s.len() - 1].0@ == k);
        } else {
            if has_key(s.drop_last(), k) {
                let i = choose|i: int| 0 <= i < s.drop_last().len() && s.drop_last()[i].0@ == k;
                assert(s[i].0@ == k);
            }
            if has_key(s, k) {
                let i = choose|i: int| 0 <= i < s.len() && s[i].0@ == k;
                assert(s.drop_last()[i].0@ == k);
            }
        }
    }
}

proof fn lemma_map_of_value(s: Seq<(String, AuthState)>, i: int)
    requires
        unique_keys(s),
        0 <= i < s.len(),
    ensures
        map_of(s).contains_key(s[i].0@),
        map_of(s)[s[i].0@] == s[i].1@,
    decreases s.len(),
{
    if i == s.len() - 1 {
    } else {
        assert(unique_keys(s.drop_last())) by {
            assert(forall|x: int, y: int|
                0 <= x < y < s.drop_last().len() ==> s.drop_last()[x].0@ == s[x].0@
                    && s.drop_last()[y].0@ == s[y].0@);
        }
        assert(s.drop_last()[i] == s[i]);
        lemma_map_of_value(s.drop_last(), i);
        assert(s[i].0@ != s.last().0@);
    }
}

proof fn lemma_map_of_remove(s: Seq<(String, AuthState)>, i: int)
    requires
        unique_keys(s),
        0 <= i < s.len(),
    ensures
        map_of(s.remove(i)) == map_of(s).remove(s[i].0@),
    decreases s.len(),
{
    let k = s[i].0@;
    if i == s.len() - 1 {
        assert(s.remove(i) =~= s.drop_last());
        assert(!has_key(s.drop_last(), k)) by {
            assert(forall|j: int|
                0 <= j < s.drop_last().len() ==> s.drop_last()[j].0@ == s[j].0@ && s[j].0@ != k);
        }
        lemma_map_of_contains(s.drop_last(), k);
        assert(map_of(s.drop_last()).insert(k, s.last().1@).remove(k) =~= map_of(s.drop_last()));
    } else {
        assert(unique_keys(s.drop_last())) by {
            assert(forall|x: int, y: int|
                0 <= x < y < s.drop_last().len() ==> s.drop_last()[x].0@ == s[x].0@
                    && s.drop_last()[y].0@ == s[y].0@);
        }
        assert(s.drop_last()[i] == s[i]);
        lemma_map_of_remove(s.drop_last(), i);
        assert(s.remove(i).drop_last() =~= s.drop_last().remove(i));
        assert(s.remove(i).last() == s.last());
        assert(k != s.last().0@);
        assert(map_of(s.drop_last()).remove(k).insert(s.last().0@, s.last().1@) =~= map_of(
            s.drop_last(),
        ).insert(s.last().0@, s.last().1@).remove(k));
        assert(map_of(s.remove(i)) == map_of(s.remove(i).drop_last()).insert(
            s.remove(i).last().0@,
            s.remove(i).last().1@,
        ));
    }
}

impl AuthStateStore {
    /// No two entries of the backing vector carry the same CSRF token.
    pub closed spec fn wf(&self) -> bool {
        unique_keys(self.entries@)
    }

    /// An empty store.
    pub fn new() -> (r: AuthStateStore)
        ensures
            r.wf(),
            r@ == Map::<Seq<char>, AuthStateView>::empty(),
    {
        AuthStateStore { entries: Vec::new() }
    }

    /// The number of pending logins.
    pub fn len(&self) -> (r: usize)
        requires
            self.wf(),
        ensures
            r == self@.dom().len(),
    {
        proof {
            lemma_entries_len(self.entries@);
        }
        self.entries.len()
    }

    /// Records a pending login under its CSRF token.  An entry already
    /// stored under the same token is replaced.
    pub fn put(&mut self, key: String, value: AuthState)
        requires
            old(self).wf(),
        ensures
            final(self).wf(),
            final(self)@ == old(self)@.insert(key@, value@),
    {
        let ghost pre = self.entries@;
        let _ = self.take(&key);
        let ghost mid = self.entries@;
        proof {
            lemma_map_of_contains(mid, key@);
        }
        self.entries.push((key, value));
        proof {
            assert(self.entries@.drop_last() =~= mid);
            assert(map_of(self.entries@) =~= map_of(pre).insert(
                self.entries@.last().0@,
                self.entries@.last().1@,
            ));
        }
    }

    /// Atomically removes and returns the pending login stored under
    /// `key`, if any.  A second `take` of the same key finds nothing:
    /// this is the exactly-once consumption that defeats replay.
    pub fn take(&mut self, key: &String) -> (r: Option<AuthState>)
        requires
            old(self).wf(),
        ensures
            final(self).wf(),
            old(self)@.contains_key(key@) ==> {
                &&& r matches Some(v) && v@ == old(self)@[key@]
                &&& final(self)@ == old(self)@.remove(key@)
            },
            !old(self)@.contains_key(key@) ==> r == None::<AuthState> && *final(self) == *old(
                self,
            ),
    {
        let mut i: usize = 0;
        while i < self.entries.len()
            invariant
                *self == *old(self),
                self.wf(),
                i <= self.entries@.len(),
                forall|j: int| 0 <= j < i ==> self.entries@[j].0@ != key@,
            decreases self.entries@.len() - i,
        {
            if self.entries[i].0 == *key {
                proof {
                    lemma_map_of_contains(self.entries@, key@);
                    lemma_map_of_value(self.entries@, i as int);
                    lemma_map_of_remove(self.entries@, i as int);
                }
                let ghost pre = self.entries@;
                let (_, value) = self.entries.remove(i);
                proof {
                    assert(unique_keys(self.entries@)) by {
                        pre.remove_ensures(i as int);
                        assert forall|x: int, y: int|
                            0 <= x < y < self.entries@.len() implies self.entries@[x].0@
                            != self.entries@[y].0@ by {
                            let x0: int = if x < i { x } else { x + 1 };
                            let y0: int = if y < i { y } else { y + 1 };
                            assert(self.entries@[x] == pre[x0]);
                            assert(self.entries@[y] == pre[y0]);
                        }
                    }
                }
                return Some(value);
            }
            i += 1;
        }
        proof {
            lemma_map_of_contains(self.entries@, key@);
        }
        None
    }
}

proof fn lemma_entries_len(s: Seq<(String, AuthState)>)
    requires
        unique_keys(s),
    ensures
        map_of(s).dom().len() == s.len(),
        map_of(s).dom().finite(),
    decreases s.len(),
{
    if s.len() > 0 {
        assert(unique_keys(s.drop_last())) by {
            assert(forall|x: int, y: int|
                0 <= x < y < s.drop_last().len() ==> s.drop_last()[x].0@ == s[x].0@
                    && s.drop_last()[y].0@ == s[y].0@);
        }
        lemma_entries_len(s.drop_last());
        assert(!has_key(s.drop_last(), s.last().0@)) by {
            assert(forall|j: int|
                0 <= j < s.drop_last().len() ==> s.drop_last()[j].0@ == s[j].0@ && s[j].0@
                    != s.last().0@);
        }
        lemma_map_of_contains(s.drop_last(), s.last().0@);
        vstd::set::axiom_set_insert_len(map_of(s.drop_last()).dom(), s.last().0@);
        assert(map_of(s).dom() =~= map_of(s.drop_last()).dom().insert(s.last().0@));
    }
}

/// Exactly-once consumption, stated over the store's mapping: after a
/// pending record `v` is stored under token `k`, one `take` of `k` finds
/// exactly `v`, and the store afterwards holds nothing under `k`, so
/// every further `take` of `k` finds nothing.
pub proof fn lemma_put_take_exactly_once(
    m: Map<Seq<char>, AuthStateView>,
    k: Seq<char>,
    v: AuthStateView,
)
    ensures
        m.insert(k, v).contains_key(k),
        m.insert(k, v)[k] == v,
        !m.insert(k, v).remove(k).contains_key(k),
{
}

} // verus!
