use vstd::prelude::*;
use crate::account::Pubkey;

verus! {

/// The uniqueness key of a record: its recipient and the text fields that
/// identify it (the game id, then the achievement name where there is one).
pub type KeyView = (u64, Seq<Seq<char>>);

/// The immutable descriptive metadata bound to a minted token: its name, a
/// description (for a game, its playtime in decimal), and the time it
/// records (for a game, when it was minted; for an achievement, when it was
/// unlocked).
#[derive(Clone, Debug)]
pub struct TokenMetadata {
    pub name: String,
    pub description: String,
    pub timestamp: i64,
}

/// One minted token unit: its mint id, the collection token it belongs to,
/// its holder and its metadata.
#[derive(Clone, Debug)]
pub struct MintedToken {
    pub mint: u64,
    pub collection_mint: u64,
    pub owner: Pubkey,
    pub metadata: TokenMetadata,
}

/// A kind of record that a collection mints, identified by a uniqueness key.
pub trait MintRecord: Sized {
    /// The record's uniqueness key.
    spec fn key_view(&self) -> KeyView;

    /// Whether two records share their uniqueness key.
    fn same_key(&self, other: &Self) -> (r: bool)
        ensures
            r == (self.key_view() == other.key_view()),
    ;
}

/// Whether some record of `records` has uniqueness key `k`.
pub open spec fn has_key<R: MintRecord>(records: Seq<R>, k: KeyView) -> bool {
    exists|i: int| 0 <= i < records.len() && #[trigger] records[i].key_view() == k
}

/// The uniqueness keys of `records`, in minting order.
pub open spec fn keys_of<R: MintRecord>(records: Seq<R>) -> Seq<KeyView> {
    records.map_values(|r: R| r.key_view())
}

/// No two records of `records` share a uniqueness key.
pub open spec fn keys_distinct<R: MintRecord>(records: Seq<R>) -> bool {
    forall|i: int, j: int|
        0 <= i < records.len() && 0 <= j < records.len() && i != j ==> #[trigger] records[i].key_view()
            != #[trigger] records[j].key_view()
}

/// The collection that one authority owns, with every record minted into it.
pub struct Collection<R> {
    pub authority: Pubkey,
    pub collection_mint: u64,
    pub created_at: i64,
    pub total_minted: u64,
    pub records: Vec<R>,
}

impl<R: MintRecord> Collection<R> {
    /// The counter equals the number of records, and keys are unique.
    pub open spec fn wf(&self) -> bool {
        &&& self.total_minted == self.records@.len()
        &&& keys_distinct(self.records@)
    }

    /// An empty collection owned by `authority`.
    pub fn new(authority: Pubkey, collection_mint: u64, created_at: i64) -> (r: Collection<R>)
        ensures
            r.wf(),
            r.authority == authority,
            r.collection_mint == collection_mint,
            r.created_at == created_at,
            r.total_minted == 0,
            r.records@.len() == 0,
    {
        Collection { authority, collection_mint, created_at, total_minted: 0, records: Vec::new() }
    }

    /// Whether a record with the same key as `rec` was already minted here.
    pub fn contains_key_of(&self, rec: &R) -> (r: bool)
        ensures
            r == has_key(self.records@, rec.key_view()),
    {
        let mut i: usize = 0;
        while i < self.records.len()
            invariant
                0 <= i <= self.records@.len(),
                forall|j: int| 0 <= j < i ==> #[trigger] self.records@[j].key_view() != rec.key_view(),
            decreases self.records@.len() - i,
        {
            if self.records[i].same_key(rec) {
                return true;
            }
            i = i + 1;
        }
        false
    }

    /// Appends a record whose key is new and counts it.
    pub(crate) fn push_record(&mut self, rec: R)
        requires
            old(self).wf(),
            !has_key(old(self).records@, rec.key_view()),
            old(self).total_minted < u64::MAX,
        ensures
            final(self).wf(),
            final(self).authority == old(self).authority,
            final(self).collection_mint == old(self).collection_mint,
            final(self).created_at == old(self).created_at,
            final(self).total_minted == old(self).total_minted + 1,
            final(self).records@ == old(self).records@.push(rec),
    {
        let ghost k = rec.key_view();
        self.records.push(rec);
        self.total_minted = self.total_minted + 1;
        assert forall|i: int, j: int|
            0 <= i < self.records@.len() && 0 <= j < self.records@.len() && i != j implies
            #[trigger] self.records@[i].key_view() != #[trigger] self.records@[j].key_view() by {
            if i == self.records@.len() - 1 {
                assert(old(self).records@[j] == self.records@[j]);
            } else if j == self.records@.len() - 1 {
                assert(old(self).records@[i] == self.records@[i]);
            }
        }
    }
}

} // verus!
