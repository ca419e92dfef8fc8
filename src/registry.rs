use vstd::prelude::*;
use std::collections::HashMap;
use crate::account::Pubkey;
use crate::collection::{Collection, KeyView, MintRecord, has_key, keys_of};
use crate::error::MintError;

verus! {

broadcast use vstd::std_specs::hash::group_hash_axioms;

/// The state of one program: at most one collection per authority, keyed by
/// the authority's id, and the next token mint id to allocate.
pub struct Registry<R> {
    collections: HashMap<u64, Collection<R>>,
    next_mint: u64,
}

impl<R: MintRecord> Registry<R> {
    /// The collections, by authority id.
    pub closed spec fn collections(&self) -> Map<u64, Collection<R>> {
        self.collections@
    }

    /// The mint id that the next allocated token receives.
    pub closed spec fn spec_next_mint(&self) -> u64 {
        self.next_mint
    }

    /// Each collection sits under its own authority's id and is well formed.
    pub open spec fn wf(&self) -> bool {
        forall|a: u64| #[trigger]
            self.collections().contains_key(a) ==> {
                &&& self.collections()[a].authority.id == a
                &&& self.collections()[a].wf()
            }
    }

    /// Why `initialize_collection` for `authority` is rejected, if it is.
    pub open spec fn init_error(&self, authority: Pubkey) -> Option<MintError> {
        if self.collections().contains_key(authority.id) {
            Some(MintError::AlreadyInitialized)
        } else if self.spec_next_mint() == u64::MAX {
            Some(MintError::AccountAllocationFailed)
        } else {
            None
        }
    }

    /// `new` is `old` with a fresh, empty collection for `authority`, created
    /// at `now` and bound to the next mint id.
    pub open spec fn initialized(old: Self, new: Self, authority: Pubkey, now: i64) -> bool {
        &&& new.collections().remove(authority.id) == old.collections()
        &&& new.collections().contains_key(authority.id)
        &&& new.collections()[authority.id].authority == authority
        &&& new.collections()[authority.id].collection_mint == old.spec_next_mint()
        &&& new.collections()[authority.id].created_at == now
        &&& new.collections()[authority.id].total_minted == 0
        &&& new.collections()[authority.id].records@.len() == 0
        &&& new.spec_next_mint() == old.spec_next_mint() + 1
    }

    /// The outcome of `initialize_collection`: the error and no change, or
    /// the new collection's mint id and the new state.
    pub open spec fn init_result(
        old: Self,
        new: Self,
        authority: Pubkey,
        now: i64,
        r: Result<u64, MintError>,
    ) -> bool {
        match old.init_error(authority) {
            Some(e) => r == Err::<u64, MintError>(e) && new == old,
            None => r == Ok::<u64, MintError>(old.spec_next_mint()) && Self::initialized(
                old,
                new,
                authority,
                now,
            ),
        }
    }

    /// Why a mint of a record with key `k` into `collection`, signed by
    /// `signer`, is rejected by the checks on the program state: the
    /// collection must exist, the signer must be its authority, and the key
    /// must be new.
    pub open spec fn guard_error(&self, collection: Pubkey, signer: Pubkey, k: KeyView) -> Option<
        MintError,
    > {
        if !self.collections().contains_key(collection.id) {
            Some(MintError::CollectionNotInitialized)
        } else if signer != self.collections()[collection.id].authority {
            Some(MintError::Unauthorized)
        } else if has_key(self.collections()[collection.id].records@, k) {
            Some(MintError::DuplicateRecord)
        } else {
            None
        }
    }

    /// Why no token can be allocated for a mint into the collection of `c`.
    pub open spec fn capacity_error(&self, c: u64) -> Option<MintError> {
        if self.spec_next_mint() == u64::MAX || self.collections()[c].total_minted == u64::MAX {
            Some(MintError::AccountAllocationFailed)
        } else {
            None
        }
    }

    /// `new` is `old` with `rec` minted into the collection of `c`: that
    /// collection gained exactly `rec` and one count, the mint id advanced,
    /// and nothing else changed.
    pub open spec fn minted(old: Self, new: Self, c: u64, rec: R) -> bool {
        let before = old.collections()[c];
        let after = new.collections()[c];
        &&& new.collections().remove(c) == old.collections().remove(c)
        &&& new.collections().contains_key(c)
        &&& after.authority == before.authority
        &&& after.collection_mint == before.collection_mint
        &&& after.created_at == before.created_at
        &&& after.total_minted == before.total_minted + 1
        &&& after.records@ == before.records@.push(rec)
        &&& new.spec_next_mint() == old.spec_next_mint() + 1
    }

    /// A collection is initialized at most once: after an initialization
    /// for `authority` has succeeded, a second one fails with
    /// `AlreadyInitialized` and leaves the program, the collection's
    /// authority and its counter included, as they were.
    pub proof fn initialize_twice_fails(
        s0: Self,
        s1: Self,
        s2: Self,
        authority: Pubkey,
        t1: i64,
        t2: i64,
        m1: u64,
        r2: Result<u64, MintError>,
    )
        requires
            Self::init_result(s0, s1, authority, t1, Ok(m1)),
            Self::init_result(s1, s2, authority, t2, r2),
        ensures
            r2 == Err::<u64, MintError>(MintError::AlreadyInitialized),
            s2 == s1,
            s2.collections()[authority.id].authority == authority,
            s2.collections()[authority.id].total_minted == s1.collections()[authority.id].total_minted,
    {
    }

    /// A successful mint adds exactly one record, with a key that was new,
    /// to its collection, so the counter rises by one and the key list gains
    /// exactly that key.
    pub proof fn minted_adds_one_key(old: Self, new: Self, c: u64, rec: R)
        requires
            old.wf(),
            old.collections().contains_key(c),
            Self::minted(old, new, c, rec),
        ensures
            new.collections()[c].total_minted == old.collections()[c].total_minted + 1,
            keys_of(new.collections()[c].records@) == keys_of(old.collections()[c].records@).push(
                rec.key_view(),
            ),
    {
        assert(keys_of(new.collections()[c].records@) =~= keys_of(
            old.collections()[c].records@,
        ).push(rec.key_view()));
    }

    /// A program with no collection.
    pub fn new() -> (r: Registry<R>)
        ensures
            r.wf(),
            r.collections() == Map::<u64, Collection<R>>::empty(),
            r.spec_next_mint() == 0,
    {
        Registry { collections: HashMap::new(), next_mint: 0 }
    }

    /// The mint id that the next allocated token receives.
    pub fn next_mint(&self) -> (r: u64)
        ensures
            r == self.spec_next_mint(),
    {
        self.next_mint
    }

    /// The collection of `authority`, if it was initialized.
    pub fn collection(&self, authority: Pubkey) -> (r: Option<&Collection<R>>)
        ensures
            match r {
                Some(c) => self.collections().contains_key(authority.id) && *c
                    == self.collections()[authority.id],
                None => !self.collections().contains_key(authority.id),
            },
    {
        self.collections.get(&authority.id)
    }

    /// Creates the collection of `authority` at ledger time `now`; a second
    /// call for the same authority fails with `AlreadyInitialized`.
    pub fn initialize_collection(&mut self, authority: Pubkey, now: i64) -> (r: Result<
        u64,
        MintError,
    >)
        requires
            old(self).wf(),
        ensures
            final(self).wf(),
            Self::init_result(*old(self), *final(self), authority, now, r),
    {
        if self.collections.contains_key(&authority.id) {
            return Err(MintError::AlreadyInitialized);
        }
        if self.next_mint == u64::MAX {
            return Err(MintError::AccountAllocationFailed);
        }
        let mint = self.next_mint;
        let c: Collection<R> = Collection::new(authority, mint, now);
        self.collections.insert(authority.id, c);
        self.next_mint = mint + 1;
        assert(self.collections().remove(authority.id) =~= old(self).collections());
        Ok(mint)
    }

    /// The checks on the program state that gate a mint of `rec` into the
    /// collection of `collection`, signed by `signer`. Changes nothing.
    pub(crate) fn check_mint(&self, collection: Pubkey, signer: Pubkey, rec: &R) -> (r: Result<
        (),
        MintError,
    >)
        requires
            self.wf(),
        ensures
            match self.guard_error(collection, signer, rec.key_view()) {
                Some(e) => r == Err::<(), MintError>(e),
                None => r is Ok,
            },
    {
        match self.collections.get(&collection.id) {
            None => Err(MintError::CollectionNotInitialized),
            Some(c) => {
                if signer != c.authority {
                    Err(MintError::Unauthorized)
                } else if c.contains_key_of(rec) {
                    Err(MintError::DuplicateRecord)
                } else {
                    Ok(())
                }
            },
        }
    }

    /// Allocates the next mint id and records `rec` in the collection of
    /// `collection`, whose checks have passed.
    pub(crate) fn commit_mint(&mut self, collection: Pubkey, rec: R) -> (r: Result<u64, MintError>)
        requires
            old(self).wf(),
            old(self).collections().contains_key(collection.id),
            !has_key(old(self).collections()[collection.id].records@, rec.key_view()),
        ensures
            final(self).wf(),
            match old(self).capacity_error(collection.id) {
                Some(e) => r == Err::<u64, MintError>(e) && *final(self) == *old(self),
                None => r == Ok::<u64, MintError>(old(self).spec_next_mint()) && Self::minted(
                    *old(self),
                    *final(self),
                    collection.id,
                    rec,
                ),
            },
    {
        let mint = self.next_mint;
        if mint == u64::MAX {
            return Err(MintError::AccountAllocationFailed);
        }
        match self.collections.get(&collection.id) {
            None => {
                return Err(MintError::CollectionNotInitialized);
            },
            Some(c) => {
                if c.total_minted == u64::MAX {
                    return Err(MintError::AccountAllocationFailed);
                }
            },
        }
        match self.collections.remove(&collection.id) {
            None => Err(MintError::CollectionNotInitialized),
            Some(c) => {
                let mut c = c;
                c.push_record(rec);
                self.collections.insert(collection.id, c);
                self.next_mint = mint + 1;
                assert(self.collections().remove(collection.id) =~= old(self).collections().remove(
                    collection.id,
                ));
                Ok(mint)
            },
        }
    }
}

} // verus!
