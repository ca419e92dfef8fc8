//! The games program: one record per (recipient, game id) pair.
use vstd::prelude::*;
use crate::account::Pubkey;
use crate::collection::{KeyView, MintRecord, MintedToken, TokenMetadata, has_key, keys_of};
use crate::error::MintError;
use crate::registry::Registry;
use crate::text::{MAX_NAME_LEN, decimal, decimal_string, field_fits, fits};

verus! {

/// A minted record of a game that a player has played.
#[derive(Clone, Debug)]
pub struct GameRecord {
    pub token: MintedToken,
    pub game_id: String,
    pub game_name: String,
    pub playtime: u64,
    pub minted_at: i64,
}

/// The uniqueness key of a game record.
pub open spec fn game_key(recipient: Pubkey, game_id: Seq<char>) -> KeyView {
    (recipient.id, seq![game_id])
}

impl MintRecord for GameRecord {
    open spec fn key_view(&self) -> KeyView {
        game_key(self.token.owner, self.game_id@)
    }

    fn same_key(&self, other: &Self) -> (r: bool) {
        let r = self.token.owner.id == other.token.owner.id && self.game_id == other.game_id;
        proof {
            if r {
                assert(seq![self.game_id@] =~= seq![other.game_id@]);
            } else if self.token.owner.id == other.token.owner.id {
                assert(seq![self.game_id@][0] != seq![other.game_id@][0]);
            }
        }
        r
    }
}

/// The state of the games program.
pub type GamesProgram = Registry<GameRecord>;

/// The accounts of `initialize_collection`: the signing authority.
#[derive(Clone, Copy, Debug)]
pub struct InitializeCollection {
    pub authority: Pubkey,
}

/// The accounts of `mint_game_nft`: the signer, the authority whose
/// collection is minted into, and the player who receives the token.
#[derive(Clone, Copy, Debug)]
pub struct MintGameNFT {
    pub authority: Pubkey,
    pub collection: Pubkey,
    pub recipient: Pubkey,
}

/// Why the arguments of a game mint are rejected, if they are.
pub open spec fn game_fields_error(game_name: Seq<char>, game_id: Seq<char>) -> Option<MintError> {
    if !field_fits(game_name, MAX_NAME_LEN as nat) || !field_fits(game_id, MAX_NAME_LEN as nat) {
        Some(MintError::FieldTooLong)
    } else {
        None
    }
}

/// Why `mint_game_nft` is rejected, if it is: the state checks first, then
/// the arguments, then the allocation of the token.
pub open spec fn game_mint_error(
    program: GamesProgram,
    ctx: MintGameNFT,
    game_name: Seq<char>,
    game_id: Seq<char>,
) -> Option<MintError> {
    match program.guard_error(ctx.collection, ctx.authority, game_key(ctx.recipient, game_id)) {
        Some(e) => Some(e),
        None => match game_fields_error(game_name, game_id) {
            Some(e) => Some(e),
            None => program.capacity_error(ctx.collection.id),
        },
    }
}

/// `rec` is the game record minted as token `mint` of the collection token
/// `collection_mint` from these arguments at ledger time `now`.
pub open spec fn is_game_record(
    rec: GameRecord,
    mint: u64,
    collection_mint: u64,
    ctx: MintGameNFT,
    now: i64,
    game_name: Seq<char>,
    game_id: Seq<char>,
    playtime: u64,
) -> bool {
    &&& rec.token.mint == mint
    &&& rec.token.collection_mint == collection_mint
    &&& rec.token.owner == ctx.recipient
    &&& rec.token.metadata.name@ == game_name
    &&& rec.token.metadata.description@ == decimal(playtime as nat)
    &&& rec.token.metadata.timestamp == now
    &&& rec.game_id@ == game_id
    &&& rec.game_name@ == game_name
    &&& rec.playtime == playtime
    &&& rec.minted_at == now
}

/// The outcome of `mint_game_nft`: the error and no change, or the new
/// token's mint id and the program with exactly that record added.
pub open spec fn game_mint_result(
    old: GamesProgram,
    new: GamesProgram,
    ctx: MintGameNFT,
    now: i64,
    game_name: Seq<char>,
    game_id: Seq<char>,
    playtime: u64,
    r: Result<u64, MintError>,
) -> bool {
    match game_mint_error(old, ctx, game_name, game_id) {
        Some(e) => r == Err::<u64, MintError>(e) && new == old,
        None => {
            let c = ctx.collection.id;
            let rec = new.collections()[c].records@.last();
            &&& r == Ok::<u64, MintError>(old.spec_next_mint())
            &&& Registry::minted(old, new, c, rec)
            &&& is_game_record(
                rec,
                old.spec_next_mint(),
                old.collections()[c].collection_mint,
                ctx,
                now,
                game_name,
                game_id,
                playtime,
            )
        },
    }
}

/// A mint either succeeds, raising its collection's counter by one and
/// adding exactly the new key `(recipient, game id)`, or fails and changes
/// nothing.
pub proof fn game_mint_counts_once(
    s0: GamesProgram,
    s1: GamesProgram,
    ctx: MintGameNFT,
    now: i64,
    game_name: Seq<char>,
    game_id: Seq<char>,
    playtime: u64,
    r: Result<u64, MintError>,
)
    requires
        s0.wf(),
        game_mint_result(s0, s1, ctx, now, game_name, game_id, playtime, r),
    ensures
        r is Ok ==> {
            let c = ctx.collection.id;
            &&& s1.collections()[c].total_minted == s0.collections()[c].total_minted + 1
            &&& !has_key(s0.collections()[c].records@, game_key(ctx.recipient, game_id))
            &&& keys_of(s1.collections()[c].records@) == keys_of(s0.collections()[c].records@).push(
                game_key(ctx.recipient, game_id),
            )
        },
        r is Err ==> s1 == s0,
{
    if r is Ok {
        let c = ctx.collection.id;
        let rec = s1.collections()[c].records@.last();
        Registry::minted_adds_one_key(s0, s1, c, rec);
    }
}

/// A (recipient, game id) pair is minted at most once into a collection:
/// after a mint for it has succeeded, another by the collection's authority
/// fails with `DuplicateRecord` and creates no token.
pub proof fn game_duplicate_rejected(
    s0: GamesProgram,
    s1: GamesProgram,
    s2: GamesProgram,
    ctx1: MintGameNFT,
    ctx2: MintGameNFT,
    now1: i64,
    now2: i64,
    name1: Seq<char>,
    name2: Seq<char>,
    game_id: Seq<char>,
    playtime1: u64,
    playtime2: u64,
    m1: u64,
    r2: Result<u64, MintError>,
)
    requires
        s0.wf(),
        game_mint_result(s0, s1, ctx1, now1, name1, game_id, playtime1, Ok(m1)),
        game_mint_result(s1, s2, ctx2, now2, name2, game_id, playtime2, r2),
        ctx2.collection == ctx1.collection,
        ctx2.recipient == ctx1.recipient,
        ctx2.authority == ctx1.authority,
    ensures
        r2 == Err::<u64, MintError>(MintError::DuplicateRecord),
        s2 == s1,
{
    let c = ctx1.collection.id;
    let recs = s1.collections()[c].records@;
    assert(recs[recs.len() - 1].key_view() == game_key(ctx2.recipient, game_id));
}

/// No two game records of a collection share their recipient and game id.
pub proof fn game_records_unique(s: GamesProgram, c: u64, i: int, j: int)
    requires
        s.wf(),
        s.collections().contains_key(c),
        0 <= i < s.collections()[c].records@.len(),
        0 <= j < s.collections()[c].records@.len(),
        i != j,
    ensures
        ({
            let a = s.collections()[c].records@[i];
            let b = s.collections()[c].records@[j];
            a.token.owner != b.token.owner || a.game_id@ != b.game_id@
        }),
{
    let a = s.collections()[c].records@[i];
    let b = s.collections()[c].records@[j];
    assert(a.key_view() != b.key_view());
    if a.token.owner == b.token.owner && a.game_id@ == b.game_id@ {
        assert(seq![a.game_id@] =~= seq![b.game_id@]);
    }
}

/// A mint signed by anyone but the collection's authority fails with
/// `Unauthorized` and changes nothing.
pub proof fn game_mint_unauthorized(
    s0: GamesProgram,
    s1: GamesProgram,
    ctx: MintGameNFT,
    now: i64,
    game_name: Seq<char>,
    game_id: Seq<char>,
    playtime: u64,
    r: Result<u64, MintError>,
)
    requires
        game_mint_result(s0, s1, ctx, now, game_name, game_id, playtime, r),
        s0.collections().contains_key(ctx.collection.id),
        ctx.authority != s0.collections()[ctx.collection.id].authority,
    ensures
        r == Err::<u64, MintError>(MintError::Unauthorized),
        s1 == s0,
{
}

/// Creates the games collection of the signing authority at ledger time
/// `now`, returning the collection token's mint id.
pub fn initialize_collection(program: &mut GamesProgram, ctx: &InitializeCollection, now: i64) -> (r:
    Result<u64, MintError>)
    requires
        old(program).wf(),
    ensures
        final(program).wf(),
        Registry::init_result(*old(program), *final(program), ctx.authority, now, r),
{
    program.initialize_collection(ctx.authority, now)
}

/// Mints one game record token to `ctx.recipient` at ledger time `now`,
/// returning its mint id. On any error the program is unchanged.
pub fn mint_game_nft(
    program: &mut GamesProgram,
    ctx: &MintGameNFT,
    now: i64,
    game_name: String,
    game_id: String,
    playtime: u64,
) -> (r: Result<u64, MintError>)
    requires
        old(program).wf(),
    ensures
        final(program).wf(),
        game_mint_result(*old(program), *final(program), *ctx, now, game_name@, game_id@, playtime, r),
{
    let collection_mint = match program.collection(ctx.collection) {
        None => {
            return Err(MintError::CollectionNotInitialized);
        },
        Some(c) => c.collection_mint,
    };
    let rec = GameRecord {
        token: MintedToken {
            mint: program.next_mint(),
            collection_mint,
            owner: ctx.recipient,
            metadata: TokenMetadata {
                name: game_name.clone(),
                description: decimal_string(playtime),
                timestamp: now,
            },
        },
        game_id,
        game_name,
        playtime,
        minted_at: now,
    };
    program.check_mint(ctx.collection, ctx.authority, &rec)?;
    if !fits(&rec.game_name, MAX_NAME_LEN) || !fits(&rec.game_id, MAX_NAME_LEN) {
        return Err(MintError::FieldTooLong);
    }
    program.commit_mint(ctx.collection, rec)
}

} // verus!
