//! The achievements program: one record per (recipient, game id,
//! achievement name) triple.
use vstd::prelude::*;
use crate::account::Pubkey;
use crate::collection::{KeyView, MintRecord, MintedToken, TokenMetadata, has_key, keys_of};
use crate::error::MintError;
use crate::registry::Registry;
use crate::text::{MAX_DESCRIPTION_LEN, MAX_NAME_LEN, field_fits, fits};

verus! {

/// A minted record of an achievement that a player has unlocked.
#[derive(Clone, Debug)]
pub struct AchievementRecord {
    pub token: MintedToken,
    pub game_id: String,
    pub achievement_name: String,
    pub achievement_description: String,
    pub unlock_time: i64,
}

/// The uniqueness key of an achievement record.
pub open spec fn achievement_key(
    recipient: Pubkey,
    game_id: Seq<char>,
    achievement_name: Seq<char>,
) -> KeyView {
    (recipient.id, seq![game_id, achievement_name])
}

impl MintRecord for AchievementRecord {
    open spec fn key_view(&self) -> KeyView {
        achievement_key(self.token.owner, self.game_id@, self.achievement_name@)
    }

    fn same_key(&self, other: &Self) -> (r: bool) {
        let r = self.token.owner.id == other.token.owner.id && self.game_id == other.game_id
            && self.achievement_name == other.achievement_name;
        proof {
            let a = seq![self.game_id@, self.achievement_name@];
            let b = seq![other.game_id@, other.achievement_name@];
            if r {
                assert(a =~= b);
            } else if self.token.owner.id == other.token.owner.id {
                assert(a[0] != b[0] || a[1] != b[1]);
            }
        }
        r
    }
}

/// The state of the achievements program.
pub type AchievementsProgram = Registry<AchievementRecord>;

/// The accounts of `initialize_collection`: the signing authority.
#[derive(Clone, Copy, Debug)]
pub struct InitializeCollection {
    pub authority: Pubkey,
}

/// The accounts of `mint_achievement_nft`: the signer, the authority whose
/// collection is minted into, and the player who receives the token.
#[derive(Clone, Copy, Debug)]
pub struct MintAchievementNFT {
    pub authority: Pubkey,
    pub collection: Pubkey,
    pub recipient: Pubkey,
}

/// Why the arguments of an achievement mint are rejected at ledger time
/// `now`, if they are: an unlock time after `now`, then a text field out of
/// bounds.
pub open spec fn achievement_args_error(
    now: i64,
    game_id: Seq<char>,
    achievement_name: Seq<char>,
    achievement_description: Seq<char>,
    unlock_time: i64,
) -> Option<MintError> {
    if unlock_time > now {
        Some(MintError::InvalidTimestamp)
    } else if !field_fits(game_id, MAX_NAME_LEN as nat) || !field_fits(
        achievement_name,
        MAX_NAME_LEN as nat,
    ) || !field_fits(achievement_description, MAX_DESCRIPTION_LEN as nat) {
        Some(MintError::FieldTooLong)
    } else {
        None
    }
}

/// Why `mint_achievement_nft` is rejected, if it is: the state checks first,
/// then the arguments, then the allocation of the token.
pub open spec fn achievement_mint_error(
    program: AchievementsProgram,
    ctx: MintAchievementNFT,
    now: i64,
    game_id: Seq<char>,
    achievement_name: Seq<char>,
    achievement_description: Seq<char>,
    unlock_time: i64,
) -> Option<MintError> {
    match program.guard_error(
        ctx.collection,
        ctx.authority,
        achievement_key(ctx.recipient, game_id, achievement_name),
    ) {
        Some(e) => Some(e),
        None => match achievement_args_error(
            now,
            game_id,
            achievement_name,
            achievement_description,
            unlock_time,
        ) {
            Some(e) => Some(e),
            None => program.capacity_error(ctx.collection.id),
        },
    }
}

/// `rec` is the achievement record minted as token `mint` of the collection
/// token `collection_mint` from these arguments.
pub open spec fn is_achievement_record(
    rec: AchievementRecord,
    mint: u64,
    collection_mint: u64,
    ctx: MintAchievementNFT,
    game_id: Seq<char>,
    achievement_name: Seq<char>,
    achievement_description: Seq<char>,
    unlock_time: i64,
) -> bool {
    &&& rec.token.mint == mint
    &&& rec.token.collection_mint == collection_mint
    &&& rec.token.owner == ctx.recipient
    &&& rec.token.metadata.name@ == achievement_name
    &&& rec.token.metadata.description@ == achievement_description
    &&& rec.token.metadata.timestamp == unlock_time
    &&& rec.game_id@ == game_id
    &&& rec.achievement_name@ == achievement_name
    &&& rec.achievement_description@ == achievement_description
    &&& rec.unlock_time == unlock_time
}

/// The outcome of `mint_achievement_nft`: the error and no change, or the
/// new token's mint id and the program with exactly that record added.
pub open spec fn achievement_mint_result(
    old: AchievementsProgram,
    new: AchievementsProgram,
    ctx: MintAchievementNFT,
    now: i64,
    game_id: Seq<char>,
    achievement_name: Seq<char>,
    achievement_description: Seq<char>,
    unlock_time: i64,
    r: Result<u64, MintError>,
) -> bool {
    match achievement_mint_error(
        old,
        ctx,
        now,
        game_id,
        achievement_name,
        achievement_description,
        unlock_time,
    ) {
        Some(e) => r == Err::<u64, MintError>(e) && new == old,
        None => {
            let c = ctx.collection.id;
            let rec = new.collections()[c].records@.last();
            &&& r == Ok::<u64, MintError>(old.spec_next_mint())
            &&& Registry::minted(old, new, c, rec)
            &&& is_achievement_record(
                rec,
                old.spec_next_mint(),
                old.collections()[c].collection_mint,
                ctx,
                game_id,
                achievement_name,
                achievement_description,
                unlock_time,
            )
        },
    }
}

/// A mint either succeeds, raising its collection's counter by one and
/// adding exactly the new key `(recipient, game id, achievement name)`, or
/// fails and changes nothing.
pub proof fn achievement_mint_counts_once(
    s0: AchievementsProgram,
    s1: AchievementsProgram,
    ctx: MintAchievementNFT,
    now: i64,
    game_id: Seq<char>,
    achievement_name: Seq<char>,
    achievement_description: Seq<char>,
    unlock_time: i64,
    r: Result<u64, MintError>,
)
    requires
        s0.wf(),
        achievement_mint_result(
            s0,
            s1,
            ctx,
            now,
            game_id,
            achievement_name,
            achievement_description,
            unlock_time,
            r,
        ),
    ensures
        r is Ok ==> {
            let c = ctx.collection.id;
            let k = achievement_key(ctx.recipient, game_id, achievement_name);
            &&& s1.collections()[c].total_minted == s0.collections()[c].total_minted + 1
            &&& !has_key(s0.collections()[c].records@, k)
            &&& keys_of(s1.collections()[c].records@) == keys_of(s0.collections()[c].records@).push(
                k,
            )
        },
        r is Err ==> s1 == s0,
{
    if r is Ok {
        let c = ctx.collection.id;
        let rec = s1.collections()[c].records@.last();
        Registry::minted_adds_one_key(s0, s1, c, rec);
    }
}

/// A (recipient, game id, achievement name) triple is minted at most once
/// into a collection: after a mint for it has succeeded, another by the
/// collection's authority fails with `DuplicateRecord` and creates no token.
pub proof fn achievement_duplicate_rejected(
    s0: AchievementsProgram,
    s1: AchievementsProgram,
    s2: AchievementsProgram,
    ctx1: MintAchievementNFT,
    ctx2: MintAchievementNFT,
    now1: i64,
    now2: i64,
    game_id: Seq<char>,
    achievement_name: Seq<char>,
    description1: Seq<char>,
    description2: Seq<char>,
    unlock_time1: i64,
    unlock_time2: i64,
    m1: u64,
    r2: Result<u64, MintError>,
)
    requires
        s0.wf(),
        achievement_mint_result(
            s0,
            s1,
            ctx1,
            now1,
            game_id,
            achievement_name,
            description1,
            unlock_time1,
            Ok(m1),
        ),
        achievement_mint_result(
            s1,
            s2,
            ctx2,
            now2,
            game_id,
            achievement_name,
            description2,
            unlock_time2,
            r2,
        ),
        ctx2.collection == ctx1.collection,
        ctx2.recipient == ctx1.recipient,
        ctx2.authority == ctx1.authority,
    ensures
        r2 == Err::<u64, MintError>(MintError::DuplicateRecord),
        s2 == s1,
{
    let c = ctx1.collection.id;
    let recs = s1.collections()[c].records@;
    assert(recs[recs.len() - 1].key_view() == achievement_key(
        ctx2.recipient,
        game_id,
        achievement_name,
    ));
}

/// No two achievement records of a collection share their recipient, game
/// id and achievement name.
pub proof fn achievement_records_unique(s: AchievementsProgram, c: u64, i: int, j: int)
    requires
        s.wf(),
        s.collections().contains_key(c),
        0 <= i < s.collections()[c].records@.len(),
        0 <= j < s.collections()[c].records@.len(),
        i != j,
    ensures
        ({
            let a = s.collections()[c].records@[i];
            let b = s.collections()[c].records@[j];
            a.token.owner != b.token.owner || a.game_id@ != b.game_id@ || a.achievement_name@
                != b.achievement_name@
        }),
{
    let a = s.collections()[c].records@[i];
    let b = s.collections()[c].records@[j];
    assert(a.key_view() != b.key_view());
    if a.token.owner == b.token.owner && a.game_id@ == b.game_id@ && a.achievement_name@
        == b.achievement_name@ {
        assert(seq![a.game_id@, a.achievement_name@] =~= seq![b.game_id@, b.achievement_name@]);
    }
}

/// A mint signed by anyone but the collection's authority fails with
/// `Unauthorized` and changes nothing.
pub proof fn achievement_mint_unauthorized(
    s0: AchievementsProgram,
    s1: AchievementsProgram,
    ctx: MintAchievementNFT,
    now: i64,
    game_id: Seq<char>,
    achievement_name: Seq<char>,
    achievement_description: Seq<char>,
    unlock_time: i64,
    r: Result<u64, MintError>,
)
    requires
        achievement_mint_result(
            s0,
            s1,
            ctx,
            now,
            game_id,
            achievement_name,
            achievement_description,
            unlock_time,
            r,
        ),
        s0.collections().contains_key(ctx.collection.id),
        ctx.authority != s0.collections()[ctx.collection.id].authority,
    ensures
        r == Err::<u64, MintError>(MintError::Unauthorized),
        s1 == s0,
{
}

/// An authorized mint of a new achievement whose unlock time lies after the
/// ledger's current time fails with `InvalidTimestamp` and changes nothing.
pub proof fn achievement_future_unlock_rejected(
    s0: AchievementsProgram,
    s1: AchievementsProgram,
    ctx: MintAchievementNFT,
    now: i64,
    game_id: Seq<char>,
    achievement_name: Seq<char>,
    achievement_description: Seq<char>,
    unlock_time: i64,
    r: Result<u64, MintError>,
)
    requires
        achievement_mint_result(
            s0,
            s1,
            ctx,
            now,
            game_id,
            achievement_name,
            achievement_description,
            unlock_time,
            r,
        ),
        s0.collections().contains_key(ctx.collection.id),
        ctx.authority == s0.collections()[ctx.collection.id].authority,
        !has_key(
            s0.collections()[ctx.collection.id].records@,
            achievement_key(ctx.recipient, game_id, achievement_name),
        ),
        unlock_time > now,
    ensures
        r == Err::<u64, MintError>(MintError::InvalidTimestamp),
        s1 == s0,
{
}

/// Creates the achievements collection of the signing authority at ledger
/// time `now`, returning the collection token's mint id.
pub fn initialize_collection(
    program: &mut AchievementsProgram,
    ctx: &InitializeCollection,
    now: i64,
) -> (r: Result<u64, MintError>)
    requires
        old(program).wf(),
    ensures
        final(program).wf(),
        Registry::init_result(*old(program), *final(program), ctx.authority, now, r),
{
    program.initialize_collection(ctx.authority, now)
}

/// Mints one achievement record token to `ctx.recipient` at ledger time
/// `now`, returning its mint id. On any error the program is unchanged.
pub fn mint_achievement_nft(
    program: &mut AchievementsProgram,
    ctx: &MintAchievementNFT,
    now: i64,
    game_id: String,
    achievement_name: String,
    achievement_description: String,
    unlock_time: i64,
) -> (r: Result<u64, MintError>)
    requires
        old(program).wf(),
    ensures
        final(program).wf(),
        achievement_mint_result(
            *old(program),
            *final(program),
            *ctx,
            now,
            game_id@,
            achievement_name@,
            achievement_description@,
            unlock_time,
            r,
        ),
{
    let collection_mint = match program.collection(ctx.collection) {
        None => {
            return Err(MintError::CollectionNotInitialized);
        },
        Some(c) => c.collection_mint,
    };
    let rec = AchievementRecord {
        token: MintedToken {
            mint: program.next_mint(),
            collection_mint,
            owner: ctx.recipient,
            metadata: TokenMetadata {
                name: achievement_name.clone(),
                description: achievement_description.clone(),
                timestamp: unlock_time,
            },
        },
        game_id,
        achievement_name,
        achievement_description,
        unlock_time,
    };
    program.check_mint(ctx.collection, ctx.authority, &rec)?;
    if unlock_time > now {
        return Err(MintError::InvalidTimestamp);
    }
    if !fits(&rec.game_id, MAX_NAME_LEN) || !fits(&rec.achievement_name, MAX_NAME_LEN) || !fits(
        &rec.achievement_description,
        MAX_DESCRIPTION_LEN,
    ) {
        return Err(MintError::FieldTooLong);
    }
    program.commit_mint(ctx.collection, rec)
}

} // verus!
