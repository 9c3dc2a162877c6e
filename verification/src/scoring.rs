use vstd::prelude::*;
use crate::sound::{PlaySoundEffect, SoundEffect};

verus! {

/// The combo multiplier never exceeds this value.
pub const MAX_COMBO_MULTIPLIER: u32 = 4;

/// The multiplier grows by one every this many consecutive hits, and a
/// milestone jingle plays whenever the combo reaches a multiple of it.
pub const COMBO_MILESTONE: u32 = 5;

/// Points of a perfect hit before the multiplier.
pub const PERFECT_POINTS: u32 = 100;

/// Points of a good hit before the multiplier.
pub const GOOD_POINTS: u32 = 50;

/// The verdict on one tap (or on a pulse that passed the ring untouched).
#[derive(Clone, Copy, Debug, PartialEq, Eq, Structural)]
pub enum Judgment {
    Perfect,
    Good,
    Miss,
}

/// The multiplier applied to a hit made with `combo` consecutive hits.
pub open spec fn multiplier_spec(combo: int) -> int {
    if 1 + combo / (COMBO_MILESTONE as int) < MAX_COMBO_MULTIPLIER as int {
        1 + combo / (COMBO_MILESTONE as int)
    } else {
        MAX_COMBO_MULTIPLIER as int
    }
}

pub open spec fn base_points_spec(j: Judgment) -> int {
    match j {
        Judgment::Perfect => PERFECT_POINTS as int,
        Judgment::Good => GOOD_POINTS as int,
        Judgment::Miss => 0,
    }
}

pub open spec fn label_spec(j: Judgment) -> Seq<char> {
    match j {
        Judgment::Perfect => "PERFECT"@,
        Judgment::Good => "GOOD"@,
        Judgment::Miss => "MISS"@,
    }
}

impl Judgment {
    /// Points before the multiplier: 100, 50 or nothing.
    pub fn base_points(&self) -> (p: u32)
        ensures
            p == base_points_spec(*self),
    {
        match self {
            Judgment::Perfect => PERFECT_POINTS,
            Judgment::Good => GOOD_POINTS,
            Judgment::Miss => 0,
        }
    }

    /// The word shown where the rings meet.
    pub fn label(&self) -> (s: &'static str)
        ensures
            s@ == label_spec(*self),
    {
        match self {
            Judgment::Perfect => "PERFECT",
            Judgment::Good => "GOOD",
            Judgment::Miss => "MISS",
        }
    }
}

/// The score, the combo and the records of the game.
#[derive(Clone, Copy, Debug, PartialEq, Eq, Structural)]
pub struct ScoreBoard {
    pub score: u32,
    pub combo: u32,
    pub best_combo: u32,
    pub high_score: u32,
}

impl ScoreBoard {
    /// The best combo of the round is never below the running combo.
    pub open spec fn wf(self) -> bool {
        self.combo <= self.best_combo
    }

    /// What a hit of kind `j` earns from this board: the combo first grows
    /// by one, then the base points are multiplied.
    pub open spec fn hit_points(self, j: Judgment) -> int {
        match j {
            Judgment::Perfect => PERFECT_POINTS * multiplier_spec(self.combo + 1),
            Judgment::Good => GOOD_POINTS * multiplier_spec(self.combo + 1),
            Judgment::Miss => 0,
        }
    }

    /// The counters stay within `u32`.
    pub open spec fn can_apply_spec(self, j: Judgment) -> bool {
        j == Judgment::Miss || (self.combo < u32::MAX && self.score + self.hit_points(j)
            <= u32::MAX)
    }

    pub open spec fn after_spec(self, j: Judgment) -> ScoreBoard {
        if j == Judgment::Miss {
            ScoreBoard { combo: 0, ..self }
        } else {
            let c = (self.combo + 1) as u32;
            ScoreBoard {
                score: (self.score + self.hit_points(j)) as u32,
                combo: c,
                best_combo: if c > self.best_combo {
                    c
                } else {
                    self.best_combo
                },
                high_score: self.high_score,
            }
        }
    }

    /// The sounds a judgment plays: the hit sound with the new combo, then
    /// the jingle when the new combo is a milestone; or the miss sound.
    pub open spec fn sounds_spec(self, j: Judgment) -> Seq<PlaySoundEffect> {
        let c = (self.combo + 1) as u32;
        let hit = if j == Judgment::Perfect {
            PlaySoundEffect(SoundEffect::HitPerfect { combo: c })
        } else {
            PlaySoundEffect(SoundEffect::HitGood { combo: c })
        };
        if j == Judgment::Miss {
            seq![PlaySoundEffect(SoundEffect::Miss)]
        } else if c % COMBO_MILESTONE == 0 {
            seq![hit, PlaySoundEffect(SoundEffect::Combo { combo: c })]
        } else {
            seq![hit]
        }
    }

    pub open spec fn reset_spec(self) -> ScoreBoard {
        ScoreBoard { score: 0, combo: 0, best_combo: 0, high_score: self.high_score }
    }

    pub open spec fn finish_round_spec(self) -> ScoreBoard {
        ScoreBoard {
            high_score: if self.score > self.high_score {
                self.score
            } else {
                self.high_score
            },
            ..self
        }
    }

    /// A board with everything at zero.
    pub fn new() -> (b: ScoreBoard)
        ensures
            b == (ScoreBoard { score: 0, combo: 0, best_combo: 0, high_score: 0 }),
    {
        ScoreBoard { score: 0, combo: 0, best_combo: 0, high_score: 0 }
    }

    /// `(1 + combo / 5).min(4)`
    pub fn combo_multiplier(&self) -> (m: u32)
        ensures
            m == multiplier_spec(self.combo as int),
    {
        let m = 1 + self.combo / COMBO_MILESTONE;
        if m < MAX_COMBO_MULTIPLIER {
            m
        } else {
            MAX_COMBO_MULTIPLIER
        }
    }

    /// Starts a new round: everything goes back to zero but the high score.
    pub fn reset(&mut self)
        ensures
            *final(self) == old(self).reset_spec(),
    {
        self.score = 0;
        self.combo = 0;
        self.best_combo = 0;
    }

    /// Ends the round: the score becomes the high score if it beats it.
    pub fn finish_round(&mut self)
        ensures
            *final(self) == old(self).finish_round_spec(),
    {
        if self.score > self.high_score {
            self.high_score = self.score;
        }
    }

    /// Whether `apply_judgment` keeps every counter within `u32`.
    pub fn can_apply(&self, j: Judgment) -> (ok: bool)
        ensures
            ok == self.can_apply_spec(j),
    {
        if j == Judgment::Miss {
            return true;
        }
        if self.combo == u32::MAX {
            return false;
        }
        let next = ScoreBoard { combo: self.combo + 1, ..*self };
        let base = j.base_points();
        let m = next.combo_multiplier();
        assert(base * m <= 400) by (nonlinear_arith)
            requires
                base <= 100,
                m <= 4,
        ;
        let points = base * m;
        self.score <= u32::MAX - points
    }

    /// Scores one judgment and returns the sounds it plays. A hit extends
    /// the combo and earns its points times the new multiplier; a miss
    /// breaks the combo.
    pub fn apply_judgment(&mut self, j: Judgment) -> (sounds: Vec<PlaySoundEffect>)
        requires
            old(self).can_apply_spec(j),
        ensures
            *final(self) == old(self).after_spec(j),
            sounds@ == old(self).sounds_spec(j),
    {
        let delta = j.base_points();
        let mut sounds: Vec<PlaySoundEffect> = Vec::new();
        if delta > 0 {
            self.combo = self.combo + 1;
            if self.combo > self.best_combo {
                self.best_combo = self.combo;
            }
            let m = self.combo_multiplier();
            self.score = self.score + delta * m;
            if j == Judgment::Perfect {
                sounds.push(PlaySoundEffect(SoundEffect::HitPerfect { combo: self.combo }));
            } else {
                sounds.push(PlaySoundEffect(SoundEffect::HitGood { combo: self.combo }));
            }
            if self.combo % COMBO_MILESTONE == 0 {
                sounds.push(PlaySoundEffect(SoundEffect::Combo { combo: self.combo }));
            }
        } else {
            self.combo = 0;
            sounds.push(PlaySoundEffect(SoundEffect::Miss));
        }
        sounds
    }
}


/// The board after scoring the judgments of `js` one after the other.
pub open spec fn run_spec(b: ScoreBoard, js: Seq<Judgment>) -> ScoreBoard
    decreases js.len(),
{
    if js.len() == 0 {
        b
    } else {
        run_spec(b, js.drop_last()).after_spec(js.last())
    }
}

/// Every judgment of `js` can be scored from the board that the earlier
/// ones left.
pub open spec fn runnable(b: ScoreBoard, js: Seq<Judgment>) -> bool {
    forall|i: int| 0 <= i < js.len() ==> #[trigger] run_spec(b, js.take(i)).can_apply_spec(js[i])
}

/// The multiplier starts at one, never decreases as the combo grows, and
/// never exceeds four.
pub proof fn lemma_multiplier_bounds(c1: int, c2: int)
    requires
        0 <= c1 <= c2,
    ensures
        1 <= multiplier_spec(c1) <= multiplier_spec(c2) <= MAX_COMBO_MULTIPLIER,
        c1 < COMBO_MILESTONE ==> multiplier_spec(c1) == 1,
{
}

/// A perfect hit always earns twice what a good hit would have earned from
/// the same board, and a miss earns nothing.
pub proof fn lemma_perfect_doubles_good(b: ScoreBoard)
    ensures
        b.hit_points(Judgment::Perfect) == 2 * b.hit_points(Judgment::Good),
        b.hit_points(Judgment::Miss) == 0,
        b.hit_points(Judgment::Good) >= GOOD_POINTS,
{
    let m = multiplier_spec(b.combo + 1);
    lemma_multiplier_bounds(b.combo + 1, b.combo + 1);
    assert(b.hit_points(Judgment::Perfect) == 100 * m);
    assert(b.hit_points(Judgment::Good) == 50 * m);
}

/// Scoring a judgment keeps the best combo at or above the combo, never
/// lowers the score, the best combo or the high score; a hit extends the
/// combo by one and a miss breaks it.
pub proof fn lemma_judgment_effects(b: ScoreBoard, j: Judgment)
    requires
        b.wf(),
        b.can_apply_spec(j),
    ensures
        b.after_spec(j).wf(),
        b.after_spec(j).score >= b.score,
        b.after_spec(j).best_combo >= b.best_combo,
        b.after_spec(j).high_score == b.high_score,
        j == Judgment::Miss ==> b.after_spec(j).combo == 0 && b.after_spec(j).score == b.score,
        j != Judgment::Miss ==> b.after_spec(j).combo == b.combo + 1
            && b.after_spec(j).score == b.score + b.hit_points(j),
{
    lemma_perfect_doubles_good(b);
}

/// The milestone jingle plays exactly on the hits that bring the combo to
/// a multiple of five, and every judgment plays its own sound first.
pub proof fn lemma_milestone_jingle(b: ScoreBoard, j: Judgment)
    requires
        b.can_apply_spec(j),
    ensures
        b.sounds_spec(j).len() >= 1,
        j == Judgment::Miss ==> b.sounds_spec(j) == seq![PlaySoundEffect(SoundEffect::Miss)],
        j == Judgment::Perfect ==> b.sounds_spec(j)[0] == PlaySoundEffect(
            SoundEffect::HitPerfect { combo: b.after_spec(j).combo },
        ),
        j == Judgment::Good ==> b.sounds_spec(j)[0] == PlaySoundEffect(
            SoundEffect::HitGood { combo: b.after_spec(j).combo },
        ),
        j != Judgment::Miss ==> (b.sounds_spec(j).len() == 2 <==> b.after_spec(j).combo
            % COMBO_MILESTONE == 0),
        b.sounds_spec(j).len() == 2 ==> b.sounds_spec(j)[1] == PlaySoundEffect(
            SoundEffect::Combo { combo: b.after_spec(j).combo },
        ),
{
}

/// Starting a round keeps the high score and clears the rest; ending a
/// round leaves a high score at least as high as before and as the score.
pub proof fn lemma_round_boundaries(b: ScoreBoard)
    ensures
        b.reset_spec().wf(),
        b.reset_spec().high_score == b.high_score,
        b.reset_spec() == (ScoreBoard { score: 0, combo: 0, best_combo: 0, high_score: b.high_score }),
        b.reset_spec().score == 0 && b.reset_spec().combo == 0 && b.reset_spec().best_combo == 0,
        b.finish_round_spec() == (ScoreBoard {
            high_score: if b.score > b.high_score {
                b.score
            } else {
                b.high_score
            },
            ..b
        }),
        b.finish_round_spec().high_score >= b.high_score,
        b.finish_round_spec().high_score >= b.score,
        b.finish_round_spec().score == b.score,
        b.wf() ==> b.finish_round_spec().wf(),
        b.finish_round_spec().finish_round_spec() == b.finish_round_spec(),
{
}

/// Over a whole round, whatever the taps: the best combo stays at or above
/// the combo, the score and the best combo never go down, and the high
/// score is left to the end of the round.
pub proof fn lemma_round_invariants(b: ScoreBoard, js: Seq<Judgment>)
    requires
        b.wf(),
        runnable(b, js),
    ensures
        run_spec(b, js).wf(),
        run_spec(b, js).score >= b.score,
        run_spec(b, js).best_combo >= b.best_combo,
        run_spec(b, js).high_score == b.high_score,
    decreases js.len(),
{
    if js.len() > 0 {
        let init = js.drop_last();
        assert forall|i: int| 0 <= i < init.len() implies #[trigger] run_spec(
            b,
            init.take(i),
        ).can_apply_spec(init[i]) by {
            assert(init.take(i) =~= js.take(i));
            assert(run_spec(b, js.take(i)).can_apply_spec(js[i]));
        }
        lemma_round_invariants(b, init);
        assert(js.take(init.len() as int) =~= init);
        assert(run_spec(b, js.take(init.len() as int)).can_apply_spec(js[init.len() as int]));
        lemma_judgment_effects(run_spec(b, init), js.last());
    }
}


/// The multiplier in closed form: 1 for combos below five, 2 below ten,
/// 3 below fifteen, and 4 from fifteen on.
pub proof fn lemma_multiplier_values(c: int)
    requires
        c >= 0,
    ensures
        multiplier_spec(c) == if c < 5 {
            1int
        } else if c < 10 {
            2int
        } else if c < 15 {
            3int
        } else {
            4int
        },
{
}

/// What a hit does to the board: the combo grows by one, the score grows by
/// 100 for a perfect or 50 for a good, times the multiplier of the new
/// combo (1 up to four hits, 2 from five, 3 from ten, 4 from fifteen on),
/// which is also the multiplier the board reports afterwards; the best
/// combo becomes the larger of itself and the new combo; the high score is
/// untouched. A miss clears the combo and changes nothing else.
pub proof fn lemma_judgment_outcome(b: ScoreBoard, j: Judgment)
    requires
        b.can_apply_spec(j),
    ensures
        ({
            let a = b.after_spec(j);
            let c = b.combo + 1;
            let m = if c < 5 {
                1int
            } else if c < 10 {
                2int
            } else if c < 15 {
                3int
            } else {
                4int
            };
            &&& j == Judgment::Perfect ==> a.score == b.score + 100 * m
            &&& j == Judgment::Good ==> a.score == b.score + 50 * m
            &&& j != Judgment::Miss ==> a.score == b.score + base_points_spec(j) * multiplier_spec(
                a.combo as int,
            )
            &&& j != Judgment::Miss ==> a.combo == c
            &&& j != Judgment::Miss ==> a.best_combo == if c > b.best_combo {
                c
            } else {
                b.best_combo as int
            }
            &&& j == Judgment::Miss ==> a == (ScoreBoard { combo: 0, ..b })
            &&& a.high_score == b.high_score
        }),
{
    lemma_multiplier_values(b.combo + 1);
}


/// A judgment can be scored exactly when the counters stay within `u32`:
/// a miss always; a hit when the combo can grow by one and the score can
/// take 100 (perfect) or 50 (good) times the new multiplier.
pub proof fn lemma_can_apply_exact(b: ScoreBoard, j: Judgment)
    ensures
        ({
            let c = b.combo + 1;
            let m = if c < 5 {
                1int
            } else if c < 10 {
                2int
            } else if c < 15 {
                3int
            } else {
                4int
            };
            let p = if j == Judgment::Perfect {
                100 * m
            } else {
                50 * m
            };
            b.can_apply_spec(j) <==> (j == Judgment::Miss || (c <= u32::MAX && b.score + p
                <= u32::MAX))
        }),
{
    lemma_multiplier_values(b.combo + 1);
}

} // verus!
