use crate::util::{ClientId, ClientSecret, MastodonInstance, OauthState, UserId};
use ahash::AHasher;
use indexmap::IndexMap;
use rand::distributions::{Alphanumeric, DistString};
use std::hash::BuildHasherDefault;
use vstd::prelude::*;

verus! {

/// How many logins may wait for their callback at once.
pub const MAX_SIZE: usize = 1000;

/// Length of a generated correlation token.
pub const STATE_LEN: usize = 32;

/// A login that waits for its OAuth2 callback.
pub struct LoginInfo {
    pub client_id: ClientId,
    pub client_secret: ClientSecret,
    pub mastodon_instance: MastodonInstance,
    pub user_id: UserId,
}

/// One resident entry: the token's characters and the waiting login.
pub type Entry = (Seq<char>, LoginInfo);

/// The ordered map behind the store.
pub type StateMap = IndexMap<String, LoginInfo, BuildHasherDefault<AHasher>>;

/// indexmap's IndexMap, opaque: what it holds is named by `map_entries`.
#[verifier::external_type_specification]
#[verifier::external_body]
#[verifier::reject_recursive_types(K)]
#[verifier::reject_recursive_types(V)]
#[verifier::reject_recursive_types(S)]
pub struct ExIndexMap<K, V, S>(IndexMap<K, V, S>);

/// ahash's AHasher, the hasher of the map's keys; opaque.
#[verifier::external_type_specification]
#[verifier::external_body]
pub struct ExAHasher(AHasher);

/// std's BuildHasherDefault, which builds the map's hashers; opaque.
#[verifier::external_type_specification]
#[verifier::external_body]
#[verifier::reject_recursive_types(H)]
pub struct ExBuildHasherDefault<H>(BuildHasherDefault<H>);

/// The entries of an IndexMap, in the map's order.
pub uninterp spec fn map_entries(m: StateMap) -> Seq<Entry>;

/// Index of the entry with key `k`, or -1.
pub open spec fn position(e: Seq<Entry>, k: Seq<char>) -> int
    decreases e.len(),
{
    if e.len() == 0 {
        -1
    } else if e[0].0 == k {
        0
    } else {
        let p = position(e.drop_first(), k);
        if p < 0 {
            -1
        } else {
            p + 1
        }
    }
}

/// No two entries share a key.
pub open spec fn keys_unique(e: Seq<Entry>) -> bool {
    forall|i: int, j: int| 0 <= i < j < e.len() ==> e[i].0 != e[j].0
}

/// The login stored under `k`, if any.
pub open spec fn lookup(e: Seq<Entry>, k: Seq<char>) -> Option<LoginInfo> {
    let p = position(e, k);
    if p >= 0 {
        Some(e[p].1)
    } else {
        None
    }
}

/// The entries after `insert` of `(k, v)`: a present key keeps its place and
/// takes the new value, a new key goes last.
pub open spec fn inserted(e: Seq<Entry>, k: Seq<char>, v: LoginInfo) -> Seq<Entry> {
    let p = position(e, k);
    if p >= 0 {
        e.update(p, (k, v))
    } else {
        e.push((k, v))
    }
}

/// The entries after the entry under `k`, if any, is taken out; the others
/// keep their order.
pub open spec fn taken(e: Seq<Entry>, k: Seq<char>) -> Seq<Entry> {
    let p = position(e, k);
    if p >= 0 {
        e.remove(p)
    } else {
        e
    }
}

/// The entries after adding `(k, v)` to a store of capacity `cap`: when the
/// store is full, the oldest entry leaves first.
pub open spec fn added(e: Seq<Entry>, cap: nat, k: Seq<char>, v: LoginInfo) -> Seq<Entry> {
    let kept = if e.len() >= cap && e.len() > 0 {
        e.drop_first()
    } else {
        e
    };
    inserted(kept, k, v)
}

/// A token made of `STATE_LEN` ASCII letters and digits.
pub open spec fn is_state_token(s: Seq<char>) -> bool {
    &&& s.len() == STATE_LEN
    &&& forall|i: int|
        0 <= i < s.len() ==> ('a' <= #[trigger] s[i] <= 'z' || 'A' <= s[i] <= 'Z' || '0' <= s[i]
            <= '9')
}

pub proof fn lemma_position(e: Seq<Entry>, k: Seq<char>)
    ensures
        -1 <= position(e, k) < e.len(),
        position(e, k) >= 0 ==> e[position(e, k)].0 == k,
        position(e, k) < 0 ==> forall|i: int| 0 <= i < e.len() ==> e[i].0 != k,
    decreases e.len(),
{
    if e.len() > 0 {
        lemma_position(e.drop_first(), k);
        if e[0].0 != k {
            assert forall|i: int| 0 <= i < e.len() && position(e, k) < 0 implies e[i].0 != k by {
                if i > 0 {
                    assert(e[i] == e.drop_first()[i - 1]);
                }
            }
        }
    }
}

pub proof fn lemma_position_unique(e: Seq<Entry>, i: int)
    requires
        keys_unique(e),
        0 <= i < e.len(),
    ensures
        position(e, e[i].0) == i,
        lookup(e, e[i].0) == Some(e[i].1),
{
    lemma_position(e, e[i].0);
}

proof fn lemma_inserted_wf(e: Seq<Entry>, k: Seq<char>, v: LoginInfo)
    requires
        keys_unique(e),
    ensures
        keys_unique(inserted(e, k, v)),
        inserted(e, k, v).len() == if position(e, k) >= 0 {
            e.len()
        } else {
            e.len() + 1
        },
{
    lemma_position(e, k);
}

proof fn lemma_added_wf(e: Seq<Entry>, cap: nat, k: Seq<char>, v: LoginInfo)
    requires
        keys_unique(e),
        cap >= 1,
        e.len() <= cap,
    ensures
        keys_unique(added(e, cap, k, v)),
        added(e, cap, k, v).len() <= cap,
{
    let kept = if e.len() >= cap && e.len() > 0 {
        e.drop_first()
    } else {
        e
    };
    assert(keys_unique(kept));
    lemma_inserted_wf(kept, k, v);
}

proof fn lemma_taken_wf(e: Seq<Entry>, k: Seq<char>)
    requires
        keys_unique(e),
    ensures
        keys_unique(taken(e, k)),
        forall|i: int| 0 <= i < taken(e, k).len() ==> taken(e, k)[i].0 != k,
        taken(e, k).len() <= e.len(),
{
    lemma_position(e, k);
    let p = position(e, k);
    if p >= 0 {
        let t = e.remove(p);
        assert forall|i: int| 0 <= i < t.len() implies t[i].0 != k by {
            if i < p {
                assert(t[i] == e[i]);
            } else {
                assert(t[i] == e[i + 1]);
            }
        }
        assert forall|i: int, j: int| 0 <= i < j < t.len() implies t[i].0 != t[j].0 by {
            let ii = if i < p { i } else { i + 1 };
            let jj = if j < p { j } else { j + 1 };
            assert(t[i] == e[ii] && t[j] == e[jj]);
        }
    }
}

/// The entries after adding each of `items`, in order, to `e`.
pub open spec fn added_all(e: Seq<Entry>, cap: nat, items: Seq<Entry>) -> Seq<Entry>
    decreases items.len(),
{
    if items.len() == 0 {
        e
    } else {
        added(added_all(e, cap, items.drop_last()), cap, items.last().0, items.last().1)
    }
}

proof fn lemma_fill_below_capacity(cap: nat, items: Seq<Entry>, n: int)
    requires
        keys_unique(items),
        0 <= n <= items.len(),
        n <= cap,
    ensures
        added_all(Seq::<Entry>::empty(), cap, items.take(n)) == items.take(n),
    decreases n,
{
    if n > 0 {
        assert(items.take(n).drop_last() == items.take(n - 1));
        lemma_fill_below_capacity(cap, items, n - 1);
        lemma_position(items.take(n - 1), items[n - 1].0);
        assert(items.take(n - 1).push(items[n - 1]) == items.take(n));
    }
}

/// In a store of capacity `cap`, adding `cap + 1` logins under distinct
/// tokens leaves `cap` entries: the first token no longer resolves, and
/// every later one resolves to its login.
pub proof fn lemma_capacity_evicts_oldest(cap: nat, items: Seq<Entry>)
    requires
        cap >= 1,
        items.len() == cap + 1,
        keys_unique(items),
    ensures
        added_all(Seq::<Entry>::empty(), cap, items) == items.drop_first(),
        added_all(Seq::<Entry>::empty(), cap, items).len() == cap,
        lookup(added_all(Seq::<Entry>::empty(), cap, items), items[0].0) is None,
        forall|i: int|
            1 <= i <= cap ==> lookup(added_all(Seq::<Entry>::empty(), cap, items), #[trigger] items[i].0)
                == Some(items[i].1),
{
    let n = cap as int;
    assert(items.drop_last() == items.take(n));
    lemma_fill_below_capacity(cap, items, n);
    let kept = items.take(n).drop_first();
    lemma_position(kept, items[n].0);
    assert(kept.push(items[n]) == items.drop_first());
    let r = items.drop_first();
    lemma_position(r, items[0].0);
    assert forall|i: int| 1 <= i <= cap implies lookup(r, #[trigger] items[i].0) == Some(items[i].1) by {
        assert(r[i - 1] == items[i]);
        lemma_position_unique(r, i - 1);
    }
}

/// Taking a token out of the store succeeds at most once: afterwards the
/// token resolves to nothing, and taking it again changes nothing.
pub proof fn lemma_take_once(e: Seq<Entry>, k: Seq<char>)
    requires
        keys_unique(e),
    ensures
        lookup(taken(e, k), k) is None,
        taken(taken(e, k), k) == taken(e, k),
{
    lemma_taken_wf(e, k);
    lemma_position(taken(e, k), k);
}

/// Relies on IndexMap::with_capacity_and_hasher: a new map is empty.
#[verifier::external_body]
fn map_with_capacity(n: usize) -> (m: StateMap)
    ensures
        map_entries(m) == Seq::<Entry>::empty(),
{
    IndexMap::with_capacity_and_hasher(n, BuildHasherDefault::default())
}

/// Relies on IndexMap::len: the number of entries.
#[verifier::external_body]
fn map_len(m: &StateMap) -> (r: usize)
    ensures
        r == map_entries(*m).len(),
{
    m.len()
}

/// Relies on IndexMap::shift_remove_index: the entry at `index` leaves and
/// the others keep their order.
#[verifier::external_body]
fn map_shift_remove_index(m: &mut StateMap, index: usize) -> (r: Option<(String, LoginInfo)>)
    requires
        index < map_entries(*old(m)).len(),
    ensures
        map_entries(*final(m)) == map_entries(*old(m)).remove(index as int),
        r is Some,
{
    m.shift_remove_index(index)
}

/// Relies on IndexMap::insert: a present key keeps its place and takes the
/// new value, whose predecessor is returned; a new key goes last.
#[verifier::external_body]
fn map_insert(m: &mut StateMap, k: String, v: LoginInfo) -> (r: Option<LoginInfo>)
    ensures
        map_entries(*final(m)) == inserted(map_entries(*old(m)), k@, v),
        r == lookup(map_entries(*old(m)), k@),
{
    m.insert(k, v)
}

/// Relies on IndexMap::shift_remove: the entry under `k` leaves, its value is
/// returned, and the others keep their order.
#[verifier::external_body]
fn map_shift_remove(m: &mut StateMap, k: &String) -> (r: Option<LoginInfo>)
    ensures
        map_entries(*final(m)) == taken(map_entries(*old(m)), k@),
        r == lookup(map_entries(*old(m)), k@),
{
    m.shift_remove(k)
}

/// Relies on rand's Alphanumeric::sample_string: `len` characters drawn from
/// the ASCII letters and digits.
#[verifier::external_body]
fn random_alphanumeric(len: usize) -> (r: String)
    ensures
        r@.len() == len,
        forall|i: int|
            0 <= i < r@.len() ==> ('a' <= #[trigger] r@[i] <= 'z' || 'A' <= r@[i] <= 'Z' || '0'
                <= r@[i] <= '9'),
{
    Alphanumeric.sample_string(&mut rand::thread_rng(), len)
}

/// A bounded, insertion-ordered store from OAuth2 state token to the login
/// that waits for it. When full, the oldest entry is evicted.
pub struct LoginState {
    inner: StateMap,
    capacity: usize,
}

impl LoginState {
    /// The entries, oldest first.
    pub closed spec fn entries(&self) -> Seq<Entry> {
        map_entries(self.inner)
    }

    pub closed spec fn spec_capacity(&self) -> nat {
        self.capacity as nat
    }

    pub open spec fn wf(&self) -> bool {
        &&& keys_unique(self.entries())
        &&& self.spec_capacity() >= 1
        &&& self.entries().len() <= self.spec_capacity()
    }

    pub fn new() -> (r: Self)
        ensures
            r.wf(),
            r.entries() == Seq::<Entry>::empty(),
            r.spec_capacity() == MAX_SIZE,
    {
        Self::with_capacity(MAX_SIZE)
    }

    pub fn with_capacity(capacity: usize) -> (r: Self)
        requires
            capacity >= 1,
        ensures
            r.wf(),
            r.entries() == Seq::<Entry>::empty(),
            r.spec_capacity() == capacity,
    {
        LoginState { inner: map_with_capacity(capacity), capacity }
    }

    /// Stores `info` under `state`, evicting the oldest entry first when the
    /// store is full.
    pub fn add_with_state(&mut self, state: OauthState, info: LoginInfo)
        requires
            old(self).wf(),
        ensures
            final(self).wf(),
            final(self).spec_capacity() == old(self).spec_capacity(),
            final(self).entries() == added(
                old(self).entries(),
                old(self).spec_capacity(),
                state@,
                info,
            ),
    {
        proof {
            lemma_added_wf(self.entries(), self.spec_capacity(), state@, info);
        }
        let n = map_len(&self.inner);
        if n >= self.capacity {
            let _ = map_shift_remove_index(&mut self.inner, 0);
        }
        let _ = map_insert(&mut self.inner, state.into_string(), info);
    }

    /// Stores `info` under a fresh random token and returns the token.
    pub fn add(&mut self, info: LoginInfo) -> (r: OauthState)
        requires
            old(self).wf(),
        ensures
            final(self).wf(),
            final(self).spec_capacity() == old(self).spec_capacity(),
            is_state_token(r@),
            final(self).entries() == added(old(self).entries(), old(self).spec_capacity(), r@, info),
    {
        let token = random_alphanumeric(STATE_LEN);
        let state = OauthState::new(token);
        self.add_with_state(OauthState::new(state.to_string_value()), info);
        state
    }

    /// Takes the login stored under `oauth_state` out of the store.
    pub fn get_remove(&mut self, oauth_state: OauthState) -> (r: Option<LoginInfo>)
        requires
            old(self).wf(),
        ensures
            final(self).wf(),
            final(self).spec_capacity() == old(self).spec_capacity(),
            r == lookup(old(self).entries(), oauth_state@),
            final(self).entries() == taken(old(self).entries(), oauth_state@),
    {
        proof {
            lemma_taken_wf(self.entries(), oauth_state@);
        }
        map_shift_remove(&mut self.inner, &oauth_state.into_string())
    }

    pub fn len(&self) -> (r: usize)
        ensures
            r == self.entries().len(),
    {
        map_len(&self.inner)
    }

    pub fn capacity(&self) -> (r: usize)
        ensures
            r == self.spec_capacity(),
    {
        self.capacity
    }
}

} // verus!
