//! Grants, the records behind authorization codes, and the store that
//! hands each of them out at most once.

use vstd::prelude::*;

verus! {

/// What an authorization code stands for: which client may redeem it, the
/// redirect target bound to it, and until when it is good. Times are seconds
/// since the Unix epoch.
#[derive(Debug)]
pub struct Grant {
    pub code: String,
    pub client_id: String,
    pub redirect_uri: String,
    pub scope: Option<String>,
    pub owner_id: Option<i32>,
    pub created_at: i64,
    pub expires_at: i64,
}

/// The mathematical value of a [`Grant`].
pub struct GrantView {
    pub code: Seq<char>,
    pub client_id: Seq<char>,
    pub redirect_uri: Seq<char>,
    pub scope: Option<Seq<char>>,
    pub owner_id: Option<i32>,
    pub created_at: i64,
    pub expires_at: i64,
}

impl View for Grant {
    type V = GrantView;

    open spec fn view(&self) -> GrantView {
        GrantView {
            code: self.code@,
            client_id: self.client_id@,
            redirect_uri: self.redirect_uri@,
            scope: self.scope.deep_view(),
            owner_id: self.owner_id,
            created_at: self.created_at,
            expires_at: self.expires_at,
        }
    }
}

impl DeepView for Grant {
    type V = GrantView;

    open spec fn deep_view(&self) -> GrantView {
        self@
    }
}

/// Why a store did not take a grant.
#[derive(Clone, Copy, Debug, PartialEq, Eq, Structural)]
pub enum StoreError {
    /// A grant with the same code is already in the store.
    DuplicateCode,
    /// The backing store could not be reached.
    Unavailable,
}

/// A grant under `code` is in `grants` and has not expired at `now`. A grant
/// expires at the instant `expires_at`: from then on it is as good as absent.
pub open spec fn redeemable(grants: Map<Seq<char>, GrantView>, code: Seq<char>, now: i64) -> bool {
    grants.contains_key(code) && now < grants[code].expires_at
}

/// What a store that holds `grants` hands out for `code` at `now`: the grant
/// under the code, unless it has expired.
pub open spec fn consumed(grants: Map<Seq<char>, GrantView>, code: Seq<char>, now: i64) -> Option<
    GrantView,
> {
    if redeemable(grants, code, now) {
        Some(grants[code])
    } else {
        None
    }
}

/// What a store that holds `grants` says to `grant`: a code that is already
/// in the store is never given away a second time.
pub open spec fn creation(grants: Map<Seq<char>, GrantView>, grant: GrantView) -> Result<
    (),
    StoreError,
> {
    if grants.contains_key(grant.code) {
        Err(StoreError::DuplicateCode)
    } else {
        Ok(())
    }
}

/// What a store that held `grants` holds after it was asked to take `grant`:
/// the grant too, unless its code was already there.
pub open spec fn grants_with(grants: Map<Seq<char>, GrantView>, grant: GrantView) -> Map<
    Seq<char>,
    GrantView,
> {
    if grants.contains_key(grant.code) {
        grants
    } else {
        grants.insert(grant.code, grant)
    }
}

/// The mapping from authorization codes to grants. A code that is in the
/// store has not been consumed.
///
/// Both calls take the store exclusively: a grant is found and removed in one
/// step, so that of two attempts to redeem one code at most one gets the
/// grant.
///
/// A store whose type says `modelled()` behaves exactly as a map from codes
/// to grants, `grants()`. One that is implemented in unverified code leaves
/// both as they are here, and nothing is known of what it does.
pub trait GrantStore {
    /// Whether the store behaves as the map `grants()`.
    open spec fn modelled() -> bool {
        false
    }

    /// The grants in the store, by code.
    open spec fn grants(&self) -> Map<Seq<char>, GrantView> {
        Map::empty()
    }

    /// Puts `grant` into the store under its code. A grant that is already
    /// there is never overwritten; a failed call leaves the store as it was.
    fn create(&mut self, grant: Grant) -> (created: Result<(), StoreError>)
        ensures
            Self::modelled() ==> {
                &&& created == creation(old(self).grants(), grant@)
                &&& final(self).grants() == grants_with(old(self).grants(), grant@)
            },
    ;

    /// Takes the grant under `code` out of the store and returns it, if it is
    /// there and has not expired at `now`. Whatever is returned, the code is
    /// not in the store afterwards.
    fn consume(&mut self, code: &str, now: i64) -> (grant: Option<Grant>)
        ensures
            Self::modelled() ==> {
                &&& grant.deep_view() == consumed(old(self).grants(), code@, now)
                &&& final(self).grants() == old(self).grants().remove(code@)
            },
    ;
}

/// A grant is handed out at most once: whatever a store held under a code,
/// once the code was asked for, asking again finds nothing.
pub proof fn lemma_consumed_once(grants: Map<Seq<char>, GrantView>, code: Seq<char>, again_at: i64)
    ensures
        consumed(grants.remove(code), code, again_at) is None,
{
}

/// A grant that a store took is handed out under its code until it expires,
/// and not from then on.
pub proof fn lemma_created_then_consumed(
    grants: Map<Seq<char>, GrantView>,
    grant: GrantView,
    now: i64,
)
    requires
        creation(grants, grant) is Ok,
    ensures
        consumed(grants_with(grants, grant), grant.code, now) == if now < grant.expires_at {
            Some(grant)
        } else {
            None
        },
{
}

/// A grant is never overwritten: a store that holds a grant under a code
/// refuses another one under the same code, and stays as it was.
pub proof fn lemma_never_overwritten(grants: Map<Seq<char>, GrantView>, grant: GrantView)
    requires
        grants.contains_key(grant.code),
    ensures
        creation(grants, grant) == Err::<(), StoreError>(StoreError::DuplicateCode),
        grants_with(grants, grant) == grants,
{
}

/// What is left of `grants` when those that have expired at `now` are
/// dropped.
pub open spec fn unexpired(grants: Map<Seq<char>, GrantView>, now: i64) -> Map<Seq<char>, GrantView> {
    Map::new(|code: Seq<char>| redeemable(grants, code, now), |code: Seq<char>| grants[code])
}

/// The codes of `entries` are pairwise different.
spec fn distinct(entries: Seq<Grant>) -> bool {
    forall|i: int, j: int|
        0 <= i < j < entries.len() ==> (#[trigger] entries[i]).code@ != (#[trigger] entries[j]).code@
}

/// `entries` holds a grant under `code`.
spec fn holds(entries: Seq<Grant>, code: Seq<char>) -> bool {
    exists|i: int| 0 <= i < entries.len() && (#[trigger] entries[i]).code@ == code
}

/// Where `entries` holds the grant under `code`.
spec fn position(entries: Seq<Grant>, code: Seq<char>) -> int {
    choose|i: int| 0 <= i < entries.len() && (#[trigger] entries[i]).code@ == code
}

/// The grants of `entries`, by code.
spec fn by_code(entries: Seq<Grant>) -> Map<Seq<char>, GrantView> {
    Map::new(
        |code: Seq<char>| holds(entries, code),
        |code: Seq<char>| entries[position(entries, code)]@,
    )
}

/// Each of `entries` is found under its own code.
proof fn lemma_lookup(entries: Seq<Grant>, i: int)
    requires
        distinct(entries),
        0 <= i < entries.len(),
    ensures
        holds(entries, entries[i].code@),
        position(entries, entries[i].code@) == i,
        by_code(entries).contains_key(entries[i].code@),
        by_code(entries)[entries[i].code@] == entries[i]@,
{
}

/// A grant under a new code is one more entry of the map.
proof fn lemma_push(entries: Seq<Grant>, grant: Grant)
    requires
        distinct(entries),
        !holds(entries, grant.code@),
    ensures
        distinct(entries.push(grant)),
        by_code(entries.push(grant)) == by_code(entries).insert(grant.code@, grant@),
{
    let longer = entries.push(grant);
    assert(distinct(longer));
    assert forall|code: Seq<char>| #[trigger]
        by_code(longer).contains_key(code) == by_code(entries).insert(
            grant.code@,
            grant@,
        ).contains_key(code) by {
        if holds(entries, code) {
            assert(longer[position(entries, code)].code@ == code);
        }
        if code == grant.code@ {
            assert(longer[entries.len() as int].code@ == code);
        }
    }
    assert forall|code: Seq<char>| #[trigger] by_code(longer).contains_key(code) implies by_code(
        longer,
    )[code] == by_code(entries).insert(grant.code@, grant@)[code] by {
        let i = position(longer, code);
        lemma_lookup(longer, i);
        if i < entries.len() {
            lemma_lookup(entries, i);
        }
    }
}

/// Without one of its entries, the map is without that entry's code.
proof fn lemma_remove(entries: Seq<Grant>, at: int)
    requires
        distinct(entries),
        0 <= at < entries.len(),
    ensures
        distinct(entries.remove(at)),
        by_code(entries.remove(at)) == by_code(entries).remove(entries[at].code@),
{
    let shorter = entries.remove(at);
    let origin = |i: int|
        if i < at {
            i
        } else {
            i + 1
        };
    assert forall|i: int| 0 <= i < shorter.len() implies #[trigger] shorter[i] == entries[origin(
        i,
    )] by {}
    assert(distinct(shorter));
    assert forall|code: Seq<char>| #[trigger]
        by_code(shorter).contains_key(code) == by_code(entries).remove(
            entries[at].code@,
        ).contains_key(code) by {
        if holds(shorter, code) {
            lemma_lookup(entries, origin(position(shorter, code)));
            lemma_lookup(entries, at);
        }
        if holds(entries, code) && code != entries[at].code@ {
            let i = position(entries, code);
            if i < at {
                assert(shorter[i] == entries[i]);
            } else {
                assert(shorter[i - 1] == entries[i]);
            }
        }
    }
    assert forall|code: Seq<char>| #[trigger] by_code(shorter).contains_key(code) implies by_code(
        shorter,
    )[code] == by_code(entries).remove(entries[at].code@)[code] by {
        let i = position(shorter, code);
        lemma_lookup(shorter, i);
        lemma_lookup(entries, origin(i));
    }
}

/// There are as many codes as entries.
proof fn lemma_count(entries: Seq<Grant>)
    requires
        distinct(entries),
    ensures
        by_code(entries).dom().finite(),
        by_code(entries).len() == entries.len(),
    decreases entries.len(),
{
    if entries.len() == 0 {
        assert(by_code(entries) =~= Map::<Seq<char>, GrantView>::empty());
    } else {
        let shorter = entries.drop_last();
        let last = entries.last();
        assert(distinct(shorter));
        assert(!holds(shorter, last.code@));
        assert(shorter.push(last) =~= entries);
        lemma_push(shorter, last);
        lemma_count(shorter);
    }
}

/// `kept` holds, each once, the grants of `all` from the place `from` on that
/// have not expired at `now`, and no others.
spec fn selected(all: Seq<Grant>, from: int, kept: Seq<Grant>, now: i64) -> bool {
    &&& distinct(kept)
    &&& forall|k: int|
        0 <= k < kept.len() ==> now < (#[trigger] kept[k]).expires_at && exists|j: int|
            from <= j < all.len() && #[trigger] all[j] == kept[k]
    &&& forall|j: int|
        from <= j < all.len() && now < (#[trigger] all[j]).expires_at ==> exists|k: int|
            0 <= k < kept.len() && #[trigger] kept[k] == all[j]
}

/// One grant more is looked at: it is selected if it has not expired.
proof fn lemma_select_step(all: Seq<Grant>, from: int, kept: Seq<Grant>, now: i64)
    requires
        distinct(all),
        0 < from <= all.len(),
        selected(all, from, kept, now),
    ensures
        selected(
            all,
            from - 1,
            if now < all[from - 1].expires_at {
                kept.push(all[from - 1])
            } else {
                kept
            },
            now,
        ),
{
    let at = from - 1;
    if now < all[at].expires_at {
        let more = kept.push(all[at]);
        assert(distinct(more));
        assert forall|j: int|
            at <= j < all.len() && now < (#[trigger] all[j]).expires_at implies exists|k: int|
            0 <= k < more.len() && #[trigger] more[k] == all[j] by {
            if j == at {
                assert(more[kept.len() as int] == all[j]);
            } else {
                let k = choose|k: int| 0 <= k < kept.len() && #[trigger] kept[k] == all[j];
                assert(more[k] == all[j]);
            }
        }
    }
}

/// What is selected of all the grants is the map of those that have not
/// expired.
proof fn lemma_selected_all(all: Seq<Grant>, kept: Seq<Grant>, now: i64)
    requires
        distinct(all),
        selected(all, 0, kept, now),
    ensures
        by_code(kept) == unexpired(by_code(all), now),
{
    assert forall|code: Seq<char>| #[trigger]
        by_code(kept).contains_key(code) == unexpired(by_code(all), now).contains_key(code) by {
        if holds(kept, code) {
            let k = position(kept, code);
            let j = choose|j: int| 0 <= j < all.len() && #[trigger] all[j] == kept[k];
            lemma_lookup(all, j);
        }
        if redeemable(by_code(all), code, now) {
            lemma_lookup(all, position(all, code));
        }
    }
    assert forall|code: Seq<char>| #[trigger] by_code(kept).contains_key(code) implies by_code(
        kept,
    )[code] == unexpired(by_code(all), now)[code] by {
        let k = position(kept, code);
        lemma_lookup(kept, k);
        let j = choose|j: int| 0 <= j < all.len() && #[trigger] all[j] == kept[k];
        lemma_lookup(all, j);
    }
}

/// A store of grants in memory. No two of its grants have the same code.
pub struct MemoryGrantStore {
    entries: Vec<Grant>,
}

impl MemoryGrantStore {
    #[verifier::type_invariant]
    spec fn distinct_codes(self) -> bool {
        distinct(self.entries@)
    }

    /// An empty store.
    pub fn new() -> (store: MemoryGrantStore)
        ensures
            store.grants() == Map::<Seq<char>, GrantView>::empty(),
    {
        let store = MemoryGrantStore { entries: Vec::new() };
        store
    }

    /// The number of grants in the store.
    pub fn len(&self) -> (n: usize)
        ensures
            self.grants().dom().finite(),
            n == self.grants().len(),
    {
        proof {
            use_type_invariant(self);
            lemma_count(self.entries@);
        }
        self.entries.len()
    }

    /// Whether a grant under `code` is in the store, expired or not.
    pub fn contains(&self, code: &str) -> (found: bool)
        ensures
            found == self.grants().contains_key(code@),
    {
        find(&self.entries, code).is_some()
    }

    /// Drops the grants that have expired at `now`.
    pub fn purge_expired(&mut self, now: i64)
        ensures
            final(self).grants() == unexpired(old(self).grants(), now),
    {
        proof {
            use_type_invariant(&*self);
        }
        let mut rest: Vec<Grant> = Vec::new();
        std::mem::swap(&mut rest, &mut self.entries);
        let ghost all = rest@;
        let mut kept: Vec<Grant> = Vec::new();
        while rest.len() > 0
            invariant
                distinct(all),
                rest.len() <= all.len(),
                rest@ == all.take(rest.len() as int),
                selected(all, rest.len() as int, kept@, now),
            decreases rest.len(),
        {
            proof {
                lemma_select_step(all, rest.len() as int, kept@, now);
            }
            let grant = rest.pop().unwrap();
            if now < grant.expires_at {
                kept.push(grant);
            }
        }
        proof {
            lemma_selected_all(all, kept@, now);
        }
        self.entries = kept;
    }
}

/// Finds the grant under `code` among `entries`.
fn find(entries: &Vec<Grant>, code: &str) -> (found: Option<usize>)
    ensures
        match found {
            Some(at) => at < entries.len() && entries[at as int].code@ == code@,
            None => !holds(entries@, code@),
        },
{
    let wanted = code.to_owned();
    let mut i: usize = 0;
    while i < entries.len()
        invariant
            i <= entries.len(),
            wanted@ == code@,
            forall|j: int| 0 <= j < i ==> (#[trigger] entries[j]).code@ != code@,
        decreases entries.len() - i,
    {
        if entries[i].code == wanted {
            return Some(i);
        }
        i += 1;
    }
    None
}

impl GrantStore for MemoryGrantStore {
    open spec fn modelled() -> bool {
        true
    }

    closed spec fn grants(&self) -> Map<Seq<char>, GrantView> {
        by_code(self.entries@)
    }

    fn create(&mut self, grant: Grant) -> (created: Result<(), StoreError>) {
        proof {
            use_type_invariant(&*self);
        }
        match find(&self.entries, grant.code.as_str()) {
            Some(at) => {
                proof {
                    lemma_lookup(self.entries@, at as int);
                }
                Err(StoreError::DuplicateCode)
            },
            None => {
                let mut entries: Vec<Grant> = Vec::new();
                std::mem::swap(&mut entries, &mut self.entries);
                proof {
                    lemma_push(entries@, grant);
                }
                entries.push(grant);
                self.entries = entries;
                Ok(())
            },
        }
    }

    fn consume(&mut self, code: &str, now: i64) -> (grant: Option<Grant>) {
        proof {
            use_type_invariant(&*self);
        }
        match find(&self.entries, code) {
            None => {
                None
            },
            Some(at) => {
                let mut entries: Vec<Grant> = Vec::new();
                std::mem::swap(&mut entries, &mut self.entries);
                proof {
                    lemma_lookup(entries@, at as int);
                    lemma_remove(entries@, at as int);
                }
                let grant = entries.remove(at);
                self.entries = entries;
                if now < grant.expires_at {
                    Some(grant)
                } else {
                    None
                }
            },
        }
    }
}

} // verus!
