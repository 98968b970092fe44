//! The turn rules of the dice game. A hand is the row of die faces rolled
//! so far this turn: a 1 busts the hand, any other face joins it; banking
//! moves the hand's total to the rolling side's score; first side to reach
//! 100 wins, and the computer holds at a hand worth 20.

use vstd::prelude::*;

verus! {

/// The score a side must reach to end the game.
pub const WINNING_SCORE: u32 = 100;

/// The hand value at which the computer banks rather than roll on.
pub const CPU_HOLD_THRESHOLD: u32 = 20;

/// A die face.
pub open spec fn valid_die(d: u32) -> bool {
    1 <= d <= 6
}

/// Every face of the hand is a die face.
pub open spec fn hand_wf(h: Seq<u32>) -> bool {
    forall|i: int| 0 <= i < h.len() ==> valid_die(#[trigger] h[i])
}

/// The sum of the faces of a hand.
pub open spec fn hand_sum(h: Seq<u32>) -> int
    decreases h.len(),
{
    if h.len() == 0 {
        0
    } else {
        hand_sum(h.drop_last()) + h.last()
    }
}

/// One more face at the front of the count: the sum over the first `i + 1`
/// faces is the sum over the first `i` plus the face at `i`.
proof fn lemma_hand_sum_take_step(h: Seq<u32>, i: int)
    requires
        0 <= i < h.len(),
    ensures
        hand_sum(h.take(i + 1)) == hand_sum(h.take(i)) + h[i],
{
    let t = h.take(i + 1);
    assert(t.len() == i + 1);
    assert(t.last() == h[i]);
    assert(t.drop_last() =~= h.take(i));
}

/// Faces are never negative, so a prefix of a hand is worth at most the
/// whole hand.
proof fn lemma_hand_sum_prefix_le(h: Seq<u32>, i: int)
    requires
        0 <= i <= h.len(),
    ensures
        0 <= hand_sum(h.take(i)) <= hand_sum(h),
    decreases h.len() - i,
{
    if i == h.len() {
        assert(h.take(i) =~= h);
        lemma_hand_sum_nonneg(h);
    } else {
        lemma_hand_sum_take_step(h, i);
        lemma_hand_sum_prefix_le(h, i + 1);
        assert(hand_sum(h.take(i)) >= 0) by {
            lemma_hand_sum_nonneg(h.take(i));
        }
    }
}

/// A sum of faces is never negative.
proof fn lemma_hand_sum_nonneg(h: Seq<u32>)
    ensures
        hand_sum(h) >= 0,
    decreases h.len(),
{
    if h.len() > 0 {
        lemma_hand_sum_nonneg(h.drop_last());
    }
}

/// The running totals of the two sides.
#[derive(Clone, Copy, PartialEq, Eq, Structural, Debug)]
pub struct Scores {
    pub player: u32,
    pub cpu: u32,
}

/// The side the final screen announces.
#[derive(Clone, Copy, PartialEq, Eq, Structural, Debug)]
pub enum Winner {
    Player,
    Cpu,
}

/// The hand's worth: the sum of its faces.
pub fn hand_total(hand: &Vec<u32>) -> (r: u32)
    requires
        hand_sum(hand@) <= u32::MAX,
    ensures
        r == hand_sum(hand@),
{
    let mut sum: u32 = 0;
    let mut i: usize = 0;
    while i < hand.len()
        invariant
            i <= hand.len(),
            hand_sum(hand@) <= u32::MAX,
            sum == hand_sum(hand@.take(i as int)),
        decreases hand.len() - i,
    {
        proof {
            lemma_hand_sum_take_step(hand@, i as int);
            lemma_hand_sum_prefix_le(hand@, i as int + 1);
        }
        sum = sum + hand[i];
        i += 1;
    }
    proof {
        assert(hand@.take(hand@.len() as int) =~= hand@);
    }
    sum
}

/// One roll against the hand, the rule both sides play by: a 1 busts the
/// hand — it is cleared and the turn ends with nothing scored — while any
/// other face joins the hand.
pub fn apply_roll(hand: &mut Vec<u32>, roll: u32) -> (busted: bool)
    requires
        valid_die(roll),
    ensures
        busted == (roll == 1),
        roll == 1 ==> final(hand)@ == Seq::<u32>::empty(),
        roll != 1 ==> final(hand)@ == old(hand)@.push(roll),
        hand_wf(old(hand)@) ==> hand_wf(final(hand)@),
{
    if roll == 1 {
        hand.clear();
        true
    } else {
        hand.push(roll);
        false
    }
}

/// The player banks the hand: its total joins the player's score and the
/// hand is cleared. The computer's score is untouched.
pub fn player_pass(scores: &mut Scores, hand: &mut Vec<u32>)
    requires
        old(scores).player + hand_sum(old(hand)@) <= u32::MAX,
    ensures
        final(scores).player == old(scores).player + hand_sum(old(hand)@),
        final(scores).cpu == old(scores).cpu,
        final(hand)@ == Seq::<u32>::empty(),
{
    proof {
        lemma_hand_sum_nonneg(hand@);
    }
    let t = hand_total(hand);
    scores.player = scores.player + t;
    hand.clear();
}

/// The computer banks the hand: its total joins the computer's score and
/// the hand is cleared. The player's score is untouched.
pub fn cpu_hold(scores: &mut Scores, hand: &mut Vec<u32>)
    requires
        old(scores).cpu + hand_sum(old(hand)@) <= u32::MAX,
    ensures
        final(scores).cpu == old(scores).cpu + hand_sum(old(hand)@),
        final(scores).player == old(scores).player,
        final(hand)@ == Seq::<u32>::empty(),
{
    proof {
        lemma_hand_sum_nonneg(hand@);
    }
    let t = hand_total(hand);
    scores.cpu = scores.cpu + t;
    hand.clear();
}

/// Whether the computer rolls on: only while the hand is worth less than
/// the hold threshold and banking it would not already reach the winning
/// score.
pub fn cpu_should_roll(hand_total: u32, cpu_score: u32) -> (r: bool)
    ensures
        r == (hand_total < CPU_HOLD_THRESHOLD && cpu_score + hand_total < WINNING_SCORE),
{
    hand_total < CPU_HOLD_THRESHOLD && (cpu_score as u64) + (hand_total as u64) < (
    WINNING_SCORE as u64)
}

/// Whether either side has reached the winning score and the game is over.
pub fn check_game_over(scores: &Scores) -> (r: bool)
    ensures
        r == (scores.cpu >= WINNING_SCORE || scores.player >= WINNING_SCORE),
{
    scores.cpu >= WINNING_SCORE || scores.player >= WINNING_SCORE
}

/// The side the final screen announces: the computer exactly when the
/// player's total is strictly below the computer's.
pub fn winner(scores: &Scores) -> (r: Winner)
    ensures
        r == (if scores.player < scores.cpu {
            Winner::Cpu
        } else {
            Winner::Player
        }),
{
    if scores.player < scores.cpu {
        Winner::Cpu
    } else {
        Winner::Player
    }
}

/// Where a newly rolled die lands on the tray and which atlas cell shows
/// its face: dice line up left to right 52 pixels apart starting at -400,
/// and the atlas holds the faces one to six in order.
pub fn die_sprite_slot(hand_len: usize, roll: u32) -> (r: (i32, u32))
    requires
        valid_die(roll),
        52 * hand_len <= i32::MAX,
    ensures
        r.0 == 52 * hand_len - 400,
        r.1 == roll - 1,
{
    ((hand_len as i32) * 52 - 400, roll - 1)
}

} // verus!
