use arkanoid::ball::BlockHitEvent;
use arkanoid::block::{destroy_blocks, only_gold_remains, Block, BlockType};
use arkanoid::score::{AudioCue, Score};
use arkanoid::win::check_for_win;
use arkanoid::GameState;

fn block(block_type: BlockType) -> Option<Block> {
    Some(Block { block_type })
}

fn silver() -> Option<Block> {
    block(BlockType::Silver { hits_taken: 0 })
}

#[test]
fn block_scores() {
    assert_eq!(BlockType::Orange.score(3), 60);
    assert_eq!(BlockType::LightBlue.score(3), 70);
    assert_eq!(BlockType::Green.score(3), 80);
    assert_eq!(BlockType::Red.score(3), 90);
    assert_eq!(BlockType::Blue.score(3), 100);
    assert_eq!(BlockType::Pink.score(3), 110);
    assert_eq!(BlockType::Silver { hits_taken: 1 }.score(3), 150);
    assert_eq!(BlockType::Gold.score(3), 120);
}

#[test]
fn colored_block_breaks_at_once() {
    let mut blocks = vec![block(BlockType::Red), block(BlockType::Pink)];
    let mut score = Score(10);
    let cues = destroy_blocks(&mut blocks, &mut score, 0, &vec![BlockHitEvent(1)]);
    assert_eq!(blocks, vec![block(BlockType::Red), None]);
    assert_eq!(score, Score(120));
    assert_eq!(cues, vec![AudioCue::BlockBreak]);
}

#[test]
fn silver_breaks_on_second_hit_on_level_one() {
    let mut blocks = vec![silver()];
    let mut score = Score(0);
    let cues = destroy_blocks(&mut blocks, &mut score, 1, &vec![BlockHitEvent(0)]);
    assert_eq!(blocks, vec![block(BlockType::Silver { hits_taken: 1 })]);
    assert_eq!(cues, vec![AudioCue::BlockBounce]);
    assert_eq!(score, Score(0));
    let cues = destroy_blocks(&mut blocks, &mut score, 1, &vec![BlockHitEvent(0)]);
    assert_eq!(blocks, vec![None]);
    assert_eq!(cues, vec![AudioCue::BlockBreak]);
    assert_eq!(score, Score(50));
}

#[test]
fn silver_breaks_on_fourth_hit_on_level_sixteen() {
    let mut blocks = vec![silver()];
    let mut score = Score(0);
    let hits = vec![BlockHitEvent(0), BlockHitEvent(0), BlockHitEvent(0)];
    let cues = destroy_blocks(&mut blocks, &mut score, 16, &hits);
    assert_eq!(blocks, vec![block(BlockType::Silver { hits_taken: 3 })]);
    assert_eq!(cues, vec![AudioCue::BlockBounce; 3]);
    let cues = destroy_blocks(&mut blocks, &mut score, 16, &vec![BlockHitEvent(0)]);
    assert_eq!(blocks, vec![None]);
    assert_eq!(cues, vec![AudioCue::BlockBreak]);
    assert_eq!(score, Score(800));
}

#[test]
fn gold_never_breaks_nor_scores() {
    let mut blocks = vec![block(BlockType::Gold)];
    let mut score = Score(40);
    let hits = vec![BlockHitEvent(0); 25];
    let cues = destroy_blocks(&mut blocks, &mut score, 5, &hits);
    assert_eq!(blocks, vec![block(BlockType::Gold)]);
    assert_eq!(score, Score(40));
    assert_eq!(cues.len(), 25);
    assert!(cues.iter().all(|c| *c == AudioCue::BlockBounce));
}

#[test]
fn hit_on_missing_block_is_ignored() {
    let mut blocks = vec![None, block(BlockType::Green)];
    let mut score = Score(0);
    let cues = destroy_blocks(&mut blocks, &mut score, 2, &vec![BlockHitEvent(0), BlockHitEvent(9)]);
    assert_eq!(blocks, vec![None, block(BlockType::Green)]);
    assert_eq!(score, Score(0));
    assert!(cues.is_empty());
}

#[test]
fn score_holds_at_its_largest() {
    let mut blocks = vec![block(BlockType::Blue)];
    let mut score = Score(u32::MAX - 5);
    destroy_blocks(&mut blocks, &mut score, 0, &vec![BlockHitEvent(0)]);
    assert_eq!(score, Score(u32::MAX));
}

#[test]
fn win_when_only_gold_is_left() {
    let mut blocks = vec![block(BlockType::Gold), block(BlockType::Orange)];
    let mut state = GameState::Playing;
    assert_eq!(check_for_win(&blocks, &mut state), None);
    assert_eq!(state, GameState::Playing);
    let mut score = Score(0);
    destroy_blocks(&mut blocks, &mut score, 0, &vec![BlockHitEvent(1)]);
    assert!(only_gold_remains(&blocks));
    assert_eq!(check_for_win(&blocks, &mut state), Some(AudioCue::Win));
    assert_eq!(state, GameState::Win);
}

#[test]
fn silver_left_blocks_the_win() {
    let blocks = vec![None, silver(), block(BlockType::Gold)];
    let mut state = GameState::Playing;
    assert_eq!(check_for_win(&blocks, &mut state), None);
    assert!(!only_gold_remains(&blocks));
    assert!(only_gold_remains(&Vec::new()));
}
