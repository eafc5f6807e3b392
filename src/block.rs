//! Blocks: how each kind takes hits, what it scores, and the end of a round.
use vstd::prelude::*;
use crate::ball::BlockHitEvent;
use crate::score::{saturating_sum, AudioCue, Score};

verus! {

/// Highest level index whose silver score fits a score counter.
pub const MAX_SCORED_LEVEL: u32 = 85_899_345;

#[derive(Clone, Copy, Debug, PartialEq, Eq, Structural)]
pub enum BlockType {
    Orange,
    LightBlue,
    Green,
    Red,
    Blue,
    Pink,
    Silver { hits_taken: u32 },
    Gold,
}

#[derive(Clone, Copy, Debug, PartialEq, Eq, Structural)]
pub struct Block {
    pub block_type: BlockType,
}

/// Points a broken block of this type is worth on level `level_num`.
pub open spec fn score_of(t: BlockType, level_num: int) -> int {
    match t {
        BlockType::Orange => 60,
        BlockType::LightBlue => 70,
        BlockType::Green => 80,
        BlockType::Red => 90,
        BlockType::Blue => 100,
        BlockType::Pink => 110,
        BlockType::Silver { .. } => 50 * level_num,
        BlockType::Gold => 120,
    }
}

/// Hits a silver block takes on level `level` before it breaks.
pub open spec fn silver_durability(level: int) -> int {
    level / 8 + 2
}

/// A block after one hit, and whether that hit breaks it: silver counts the
/// hit and breaks at its durability, gold never breaks, the others break at once.
pub open spec fn hit_result(t: BlockType, level: int) -> (BlockType, bool) {
    match t {
        BlockType::Silver { hits_taken } => {
            let h = if hits_taken < u32::MAX {
                hits_taken + 1
            } else {
                hits_taken as int
            };
            (BlockType::Silver { hits_taken: h as u32 }, h >= silver_durability(level))
        },
        BlockType::Gold => (t, false),
        _ => (t, true),
    }
}

/// The blocks of a round (a despawned slot is `None`), the score and the cues
/// asked for so far.
pub ghost struct HitState {
    pub blocks: Seq<Option<Block>>,
    pub score: int,
    pub cues: Seq<AudioCue>,
}

/// One hit event: a block that breaks is removed, adds its score and asks for
/// the break cue; one that holds keeps its new state and asks for the bounce
/// cue. An event that names no block changes nothing.
pub open spec fn apply_hit(s: HitState, level: int, event: BlockHitEvent) -> HitState {
    let i = event.0 as int;
    if 0 <= i < s.blocks.len() && s.blocks[i] is Some {
        let t = s.blocks[i]->Some_0.block_type;
        let (nt, breaks) = hit_result(t, level);
        if breaks {
            HitState {
                blocks: s.blocks.update(i, None),
                score: saturating_sum(s.score, score_of(nt, level)),
                cues: s.cues.push(AudioCue::BlockBreak),
            }
        } else {
            HitState {
                blocks: s.blocks.update(i, Some(Block { block_type: nt })),
                score: s.score,
                cues: s.cues.push(AudioCue::BlockBounce),
            }
        }
    } else {
        s
    }
}

/// The hit events applied in order.
pub open spec fn apply_hits(s: HitState, level: int, events: Seq<BlockHitEvent>) -> HitState
    decreases events.len(),
{
    if events.len() == 0 {
        s
    } else {
        apply_hit(apply_hits(s, level, events.drop_last()), level, events.last())
    }
}

impl BlockType {
    /// Points this block is worth on level `level_num`.
    pub fn score(&self, level_num: u32) -> (r: u32)
        requires
            level_num <= MAX_SCORED_LEVEL,
        ensures
            r == score_of(*self, level_num as int),
    {
        match *self {
            BlockType::Orange => 60,
            BlockType::LightBlue => 70,
            BlockType::Green => 80,
            BlockType::Red => 90,
            BlockType::Blue => 100,
            BlockType::Pink => 110,
            BlockType::Silver { .. } => 50 * level_num,
            BlockType::Gold => 120,
        }
    }

    /// Takes one hit on level `level`; returns whether the block breaks.
    pub fn take_hit(&mut self, level: u32) -> (breaks: bool)
        ensures
            (*final(self), breaks) == hit_result(*old(self), level as int),
    {
        match self {
            BlockType::Silver { hits_taken } => {
                *hits_taken = hits_taken.saturating_add(1);
                *hits_taken >= level / 8 + 2
            },
            BlockType::Gold => false,
            _ => true,
        }
    }
}

/// Applies this tick's block hits: breaks, scores and cues.
pub fn destroy_blocks(
    blocks: &mut Vec<Option<Block>>,
    score: &mut Score,
    level: u32,
    events: &Vec<BlockHitEvent>,
) -> (cues: Vec<AudioCue>)
    requires
        level <= MAX_SCORED_LEVEL,
    ensures
        ({
            let s = apply_hits(
                HitState { blocks: old(blocks)@, score: old(score).0 as int, cues: Seq::empty() },
                level as int,
                events@,
            );
            &&& final(blocks)@ == s.blocks
            &&& final(score).0 == s.score
            &&& cues@ == s.cues
        }),
{
    let ghost start = HitState {
        blocks: blocks@,
        score: score.0 as int,
        cues: Seq::empty(),
    };
    let mut cues: Vec<AudioCue> = Vec::new();
    let mut k: usize = 0;
    while k < events.len()
        invariant
            0 <= k <= events.len(),
            level <= MAX_SCORED_LEVEL,
            ({
                let s = apply_hits(start, level as int, events@.subrange(0, k as int));
                &&& blocks@ == s.blocks
                &&& score.0 == s.score
                &&& cues@ == s.cues
            }),
        decreases events.len() - k,
    {
        let event = events[k];
        let ghost before = HitState { blocks: blocks@, score: score.0 as int, cues: cues@ };
        assert(events@.subrange(0, k + 1).drop_last() =~= events@.subrange(0, k as int));
        let i = event.0;
        if i < blocks.len() {
            if let Some(block) = blocks[i] {
                let mut t = block.block_type;
                let breaks = t.take_hit(level);
                if breaks {
                    blocks.set(i, None);
                    score.add_points(t.score(level));
                    cues.push(AudioCue::BlockBreak);
                } else {
                    blocks.set(i, Some(Block { block_type: t }));
                    cues.push(AudioCue::BlockBounce);
                }
            }
        }
        assert(apply_hit(before, level as int, event) == HitState {
            blocks: blocks@,
            score: score.0 as int,
            cues: cues@,
        });
        k += 1;
    }
    assert(events@.subrange(0, events.len() as int) =~= events@);
    cues
}

/// No block but gold is left.
pub open spec fn only_gold_left(blocks: Seq<Option<Block>>) -> bool {
    forall|i: int|
        0 <= i < blocks.len() && #[trigger] blocks[i] is Some ==> blocks[i]->Some_0.block_type
            == BlockType::Gold
}

/// Whether every breakable block is gone.
pub fn only_gold_remains(blocks: &Vec<Option<Block>>) -> (won: bool)
    ensures
        won == only_gold_left(blocks@),
{
    let mut i: usize = 0;
    while i < blocks.len()
        invariant
            0 <= i <= blocks.len(),
            forall|j: int|
                0 <= j < i && #[trigger] blocks@[j] is Some ==> blocks@[j]->Some_0.block_type
                    == BlockType::Gold,
        decreases blocks.len() - i,
    {
        if let Some(block) = blocks[i] {
            if block.block_type != BlockType::Gold {
                return false;
            }
        }
        i += 1;
    }
    true
}

/// `k` hits on the block at index `entity`.
pub open spec fn repeated_hits(entity: usize, k: nat) -> Seq<BlockHitEvent> {
    Seq::new(k, |n: int| BlockHitEvent(entity))
}

/// A fresh silver block on level `level` holds for fewer than
/// `level / 8 + 2` hits, counting each, and breaks at exactly that many,
/// scoring `50 * level` once. No other block is touched.
pub proof fn lemma_silver_breaks_at_durability(s: HitState, i: usize, level: u32, k: nat)
    requires
        i < s.blocks.len(),
        s.blocks[i as int] == Some(Block { block_type: BlockType::Silver { hits_taken: 0 } }),
        k <= silver_durability(level as int),
    ensures
        apply_hits(s, level as int, repeated_hits(i, k)).blocks.len() == s.blocks.len(),
        forall|j: int|
            0 <= j < s.blocks.len() && j != i ==> #[trigger] apply_hits(
                s,
                level as int,
                repeated_hits(i, k),
            ).blocks[j] == s.blocks[j],
        k < silver_durability(level as int) ==> {
            &&& apply_hits(s, level as int, repeated_hits(i, k)).blocks[i as int] == Some(
                Block { block_type: BlockType::Silver { hits_taken: k as u32 } },
            )
            &&& apply_hits(s, level as int, repeated_hits(i, k)).score == s.score
        },
        k == silver_durability(level as int) ==> {
            &&& apply_hits(s, level as int, repeated_hits(i, k)).blocks[i as int] is None
            &&& apply_hits(s, level as int, repeated_hits(i, k)).score == saturating_sum(
                s.score,
                50 * level,
            )
        },
    decreases k,
{
    if k > 0 {
        let prev = repeated_hits(i, (k - 1) as nat);
        assert(repeated_hits(i, k).drop_last() =~= prev);
        lemma_silver_breaks_at_durability(s, i, level, (k - 1) as nat);
    }
}

/// A gold block never breaks, whatever is hit; and hits on gold alone neither
/// score nor remove anything.
pub proof fn lemma_gold_never_breaks(s: HitState, i: int, level: int, events: Seq<BlockHitEvent>)
    requires
        0 <= i < s.blocks.len(),
        s.blocks[i] == Some(Block { block_type: BlockType::Gold }),
    ensures
        apply_hits(s, level, events).blocks.len() == s.blocks.len(),
        apply_hits(s, level, events).blocks[i] == Some(Block { block_type: BlockType::Gold }),
        (forall|k: int| 0 <= k < events.len() ==> #[trigger] events[k].0 == i) ==> {
            &&& apply_hits(s, level, events).blocks == s.blocks
            &&& apply_hits(s, level, events).score == s.score
        },
    decreases events.len(),
{
    if events.len() > 0 {
        let rest = events.drop_last();
        lemma_gold_never_breaks(s, i, level, rest);
        if forall|k: int| 0 <= k < events.len() ==> #[trigger] events[k].0 == i {
            assert forall|k: int| 0 <= k < rest.len() implies #[trigger] rest[k].0 == i by {
                assert(rest[k] == events[k]);
            }
            assert(events.last().0 == i);
            let t = apply_hits(s, level, rest);
            assert(t.blocks.update(i, Some(Block { block_type: BlockType::Gold })) =~= t.blocks);
        }
    }
}

} // verus!
