use player_nfts::account::Pubkey;
use player_nfts::error::MintError;
use player_nfts::player_achievements::{
    initialize_collection, mint_achievement_nft, AchievementsProgram, InitializeCollection,
    MintAchievementNFT,
};
use player_nfts::player_games::GamesProgram;
use player_nfts::registry::Registry;

fn setup(authority: u64) -> AchievementsProgram {
    let mut p: AchievementsProgram = Registry::new();
    let init = InitializeCollection { authority: Pubkey::new(authority) };
    assert_eq!(initialize_collection(&mut p, &init, 1_000), Ok(0));
    p
}

fn ctx(signer: u64, collection: u64, recipient: u64) -> MintAchievementNFT {
    MintAchievementNFT {
        authority: Pubkey::new(signer),
        collection: Pubkey::new(collection),
        recipient: Pubkey::new(recipient),
    }
}

fn mint(
    p: &mut AchievementsProgram,
    c: &MintAchievementNFT,
    now: i64,
    game_id: &str,
    name: &str,
    description: &str,
    unlock_time: i64,
) -> Result<u64, MintError> {
    mint_achievement_nft(p, c, now, game_id.to_string(), name.to_string(), description.to_string(), unlock_time)
}

#[test]
fn first_win_scenario() {
    let x = 7;
    let player = 42;
    let now = 5_000;
    let t0 = 4_000;
    let mut p = setup(x);
    assert_eq!(mint(&mut p, &ctx(x, x, player), now, "chess-001", "First Win", "Won your first game", t0), Ok(1));
    let c = p.collection(Pubkey::new(x)).unwrap();
    assert_eq!(c.total_minted, 1);
    let rec = &c.records[0];
    assert_eq!(rec.token.owner, Pubkey::new(player));
    assert_eq!(rec.token.metadata.name, "First Win");
    assert_eq!(rec.token.metadata.description, "Won your first game");
    assert_eq!(rec.token.metadata.timestamp, t0);
    assert_eq!(rec.game_id, "chess-001");
    assert_eq!(rec.achievement_name, "First Win");
    assert_eq!(rec.achievement_description, "Won your first game");
    assert_eq!(rec.unlock_time, t0);

    assert_eq!(
        mint(&mut p, &ctx(x, x, player), now, "chess-001", "First Win", "Another text", t0),
        Err(MintError::DuplicateRecord)
    );
    assert_eq!(p.collection(Pubkey::new(x)).unwrap().total_minted, 1);

    assert_eq!(mint(&mut p, &ctx(x, x, player), now, "chess-001", "Ten Wins", "Won ten games", t0), Ok(2));
    assert_eq!(p.collection(Pubkey::new(x)).unwrap().total_minted, 2);
}

#[test]
fn same_achievement_in_other_game_is_new() {
    let mut p = setup(1);
    assert_eq!(mint(&mut p, &ctx(1, 1, 9), 100, "chess-001", "First Win", "d", 100), Ok(1));
    assert_eq!(mint(&mut p, &ctx(1, 1, 9), 100, "go-001", "First Win", "d", 100), Ok(2));
    assert_eq!(mint(&mut p, &ctx(1, 1, 8), 100, "go-001", "First Win", "d", 100), Ok(3));
}

#[test]
fn achievements_initialize_twice_fails() {
    let mut p = setup(3);
    assert_eq!(mint(&mut p, &ctx(3, 3, 9), 100, "g", "a", "d", 50), Ok(1));
    let init = InitializeCollection { authority: Pubkey::new(3) };
    assert_eq!(initialize_collection(&mut p, &init, 9_000), Err(MintError::AlreadyInitialized));
    let c = p.collection(Pubkey::new(3)).unwrap();
    assert_eq!(c.authority, Pubkey::new(3));
    assert_eq!(c.total_minted, 1);
    assert_eq!(c.created_at, 1_000);
}

#[test]
fn achievements_wrong_signer_is_unauthorized() {
    let mut p = setup(1);
    assert_eq!(mint(&mut p, &ctx(5, 1, 9), 100, "g", "a", "d", 50), Err(MintError::Unauthorized));
    assert_eq!(p.collection(Pubkey::new(1)).unwrap().total_minted, 0);
    assert_eq!(p.next_mint(), 1);
}

#[test]
fn future_unlock_time_is_rejected() {
    let mut p = setup(1);
    assert_eq!(mint(&mut p, &ctx(1, 1, 9), 100, "g", "a", "d", 101), Err(MintError::InvalidTimestamp));
    assert_eq!(p.collection(Pubkey::new(1)).unwrap().total_minted, 0);
    assert_eq!(mint(&mut p, &ctx(1, 1, 9), 100, "g", "a", "d", 100), Ok(1));
}

#[test]
fn timestamp_is_checked_before_fields() {
    let mut p = setup(1);
    assert_eq!(mint(&mut p, &ctx(1, 1, 9), 100, "", "a", "d", 101), Err(MintError::InvalidTimestamp));
}

#[test]
fn achievements_field_bounds() {
    let mut p = setup(1);
    let name_long = "n".repeat(33);
    let desc_long = "d".repeat(201);
    let desc_exact = "d".repeat(200);
    assert_eq!(mint(&mut p, &ctx(1, 1, 9), 100, "", "a", "d", 0), Err(MintError::FieldTooLong));
    assert_eq!(mint(&mut p, &ctx(1, 1, 9), 100, "g", "", "d", 0), Err(MintError::FieldTooLong));
    assert_eq!(mint(&mut p, &ctx(1, 1, 9), 100, "g", "a", "", 0), Err(MintError::FieldTooLong));
    assert_eq!(mint(&mut p, &ctx(1, 1, 9), 100, &name_long, "a", "d", 0), Err(MintError::FieldTooLong));
    assert_eq!(mint(&mut p, &ctx(1, 1, 9), 100, "g", &name_long, "d", 0), Err(MintError::FieldTooLong));
    assert_eq!(mint(&mut p, &ctx(1, 1, 9), 100, "g", "a", &desc_long, 0), Err(MintError::FieldTooLong));
    assert_eq!(p.collection(Pubkey::new(1)).unwrap().total_minted, 0);
    assert_eq!(mint(&mut p, &ctx(1, 1, 9), 100, "g", "a", &desc_exact, 0), Ok(1));
}

#[test]
fn achievements_missing_collection() {
    let mut p: AchievementsProgram = Registry::new();
    assert_eq!(mint(&mut p, &ctx(1, 1, 9), 100, "g", "a", "d", 0), Err(MintError::CollectionNotInitialized));
}

#[test]
fn programs_share_no_state() {
    let mut games: GamesProgram = Registry::new();
    let achievements = setup(1);
    assert!(games.collection(Pubkey::new(1)).is_none());
    let init = player_nfts::player_games::InitializeCollection { authority: Pubkey::new(1) };
    assert_eq!(player_nfts::player_games::initialize_collection(&mut games, &init, 2), Ok(0));
    assert_eq!(achievements.collection(Pubkey::new(1)).unwrap().created_at, 1_000);
}

