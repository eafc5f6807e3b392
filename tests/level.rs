use arkanoid::block::{Block, BlockType};
use arkanoid::geometry::Vec2i;
use arkanoid::level::{
    block_type_of_tile, go_to_next_level, has_next_level, load_current_level, reset_current_level,
    CurrentLevel, LevelError, PlacedBlock,
};
use arkanoid::GameState;

fn grid(rows: &[&[&str]]) -> Vec<Vec<String>> {
    rows.iter().map(|r| r.iter().map(|t| t.to_string()).collect()).collect()
}

fn placed(block_type: BlockType, x: i64, y: i64) -> PlacedBlock {
    PlacedBlock {
        block: Block { block_type },
        position: Vec2i::new(x, y),
        half_extents: Vec2i::new(50_000, 20_000),
    }
}

#[test]
fn tiles_name_block_types() {
    let t = |s: &str| block_type_of_tile(&s.to_string()).ok().unwrap();
    assert_eq!(t("silver"), Some(BlockType::Silver { hits_taken: 0 }));
    assert_eq!(t("gold"), Some(BlockType::Gold));
    assert_eq!(t("orange"), Some(BlockType::Orange));
    assert_eq!(t("lightblue"), Some(BlockType::LightBlue));
    assert_eq!(t("green"), Some(BlockType::Green));
    assert_eq!(t("red"), Some(BlockType::Red));
    assert_eq!(t("blue"), Some(BlockType::Blue));
    assert_eq!(t("pink"), Some(BlockType::Pink));
    assert_eq!(t("blank"), None);
    match block_type_of_tile(&"purple".to_string()) {
        Err(LevelError::InvalidBlockType(s)) => assert_eq!(s, "purple"),
        Ok(_) => panic!("purple is no block"),
    }
}

#[test]
fn level_grid_is_laid_out_centered() {
    let tiles = grid(&[&["orange", "blank", "gold"], &["silver", "pink"]]);
    let blocks = load_current_level(&tiles, Vec2i::new(50_000, 20_000)).ok().unwrap();
    assert_eq!(
        blocks,
        vec![
            placed(BlockType::Orange, -30_000, 7_500),
            placed(BlockType::Gold, 30_000, 7_500),
            placed(BlockType::Silver { hits_taken: 0 }, -15_000, -7_500),
            placed(BlockType::Pink, 15_000, -7_500),
        ]
    );
}

#[test]
fn unknown_tile_fails_the_level() {
    let tiles = grid(&[&["orange"], &["red", "teal"]]);
    match load_current_level(&tiles, Vec2i::new(50_000, 20_000)) {
        Err(LevelError::InvalidBlockType(s)) => assert_eq!(s, "teal"),
        Ok(_) => panic!("teal is no block"),
    }
}

#[test]
fn empty_level_has_no_blocks() {
    assert_eq!(load_current_level(&Vec::new(), Vec2i::new(50_000, 20_000)).ok().unwrap(), vec![]);
}

#[test]
fn next_level_follows_when_there_is_one() {
    let mut level = CurrentLevel(0);
    assert!(has_next_level(2, &level));
    assert!(!has_next_level(1, &level));
    let mut state = GameState::Win;
    go_to_next_level(false, &mut level, &mut state);
    assert_eq!(level, CurrentLevel(0));
    assert_eq!(state, GameState::Win);
    go_to_next_level(true, &mut level, &mut state);
    assert_eq!(level, CurrentLevel(1));
    assert_eq!(state, GameState::Playing);
    assert!(!has_next_level(2, &level));
    reset_current_level(&mut level);
    assert_eq!(level, CurrentLevel(0));
}
