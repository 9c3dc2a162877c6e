use vstd::prelude::*;
use crate::scoring::{multiplier_spec, Judgment, ScoreBoard};
use crate::text::{decimal, decimal_string, digit_char, prefixed_decimal};

verus! {

/// The combo counter is shown from this many consecutive hits on, and a
/// combo at least this long that breaks shows "COMBO BREAK".
pub const COMBO_VISIBLE_FROM: u32 = 2;

/// From this combo on the counter takes its second look.
pub const COMBO_STAGE_ONE: u32 = 10;

/// From this combo on the counter takes its third look.
pub const COMBO_STAGE_TWO: u32 = 20;

/// What the combo display does on a frame, given how the combo moved.
#[derive(Clone, Copy, Debug, PartialEq, Eq, Structural)]
pub enum ComboCue {
    /// The combo did not change.
    Steady,
    /// The combo grew: the counter pulses.
    Rise,
    /// The combo fell from a value below two: any pulse stops.
    Drop,
    /// A combo of two or more broke: any pulse stops and the break shows.
    Break,
}

/// The combo last seen by the display, and the combo of the last break.
#[derive(Clone, Copy, Debug, PartialEq, Eq, Structural)]
pub struct ComboTracker {
    pub last_combo: u32,
    pub broken_from: u32,
}

pub open spec fn cue_spec(last: u32, combo: u32) -> ComboCue {
    if combo > last {
        ComboCue::Rise
    } else if combo < last {
        if last >= COMBO_VISIBLE_FROM {
            ComboCue::Break
        } else {
            ComboCue::Drop
        }
    } else {
        ComboCue::Steady
    }
}

pub open spec fn stage_spec(combo: u32) -> u8 {
    if combo >= COMBO_STAGE_TWO {
        2
    } else if combo >= COMBO_STAGE_ONE {
        1
    } else {
        0
    }
}

pub open spec fn combo_text_spec(combo: u32, break_active: bool) -> Seq<char> {
    if combo >= COMBO_VISIBLE_FROM {
        decimal(combo as nat) + " COMBO"@
    } else if break_active {
        "COMBO BREAK"@
    } else {
        Seq::empty()
    }
}

pub open spec fn combo_sub_text_spec(combo: u32, broken_from: u32, break_active: bool) -> Seq<
    char,
> {
    if combo >= COMBO_VISIBLE_FROM {
        "x"@ + decimal(multiplier_spec(combo as int) as nat)
    } else if break_active {
        "lost at "@ + decimal(broken_from as nat)
    } else {
        Seq::empty()
    }
}

impl ComboTracker {
    pub fn new() -> (t: ComboTracker)
        ensures
            t == (ComboTracker { last_combo: 0, broken_from: 0 }),
    {
        ComboTracker { last_combo: 0, broken_from: 0 }
    }

    /// Forgets the previous round.
    pub fn reset(&mut self)
        ensures
            *final(self) == (ComboTracker { last_combo: 0, broken_from: 0 }),
    {
        self.last_combo = 0;
        self.broken_from = 0;
    }

    /// Takes note of the current combo and says what the display does: it
    /// pulses when the combo grew; when a combo of two or more broke it
    /// remembers that combo and shows the break.
    pub fn observe(&mut self, combo: u32) -> (cue: ComboCue)
        ensures
            cue == cue_spec(old(self).last_combo, combo),
            final(self).last_combo == combo,
            final(self).broken_from == if cue == ComboCue::Break {
                old(self).last_combo
            } else {
                old(self).broken_from
            },
    {
        let last = self.last_combo;
        if last == combo {
            return ComboCue::Steady;
        }
        self.last_combo = combo;
        if combo > last {
            ComboCue::Rise
        } else if last >= COMBO_VISIBLE_FROM {
            self.broken_from = last;
            ComboCue::Break
        } else {
            ComboCue::Drop
        }
    }
}

/// Whether the combo counter shows.
pub fn combo_visible(combo: u32) -> (v: bool)
    ensures
        v == (combo >= COMBO_VISIBLE_FROM),
{
    combo >= COMBO_VISIBLE_FROM
}

/// The look of the combo counter: 0 below ten, 1 below twenty, then 2.
pub fn combo_stage(combo: u32) -> (s: u8)
    ensures
        s == stage_spec(combo),
{
    if combo >= COMBO_STAGE_TWO {
        2
    } else if combo >= COMBO_STAGE_ONE {
        1
    } else {
        0
    }
}

/// The score line of the HUD.
pub fn score_text(board: &ScoreBoard) -> (s: String)
    ensures
        s@ == decimal(board.score as nat),
{
    decimal_string(board.score)
}

/// The combo line: "12 COMBO", "COMBO BREAK" while a break shows, or empty.
pub fn combo_text(combo: u32, break_active: bool) -> (s: String)
    ensures
        s@ == combo_text_spec(combo, break_active),
{
    if combo >= COMBO_VISIBLE_FROM {
        let mut s = decimal_string(combo);
        s.append(" COMBO");
        s
    } else if break_active {
        String::from_str("COMBO BREAK")
    } else {
        String::new()
    }
}

/// The line under the combo: the multiplier ("x3"), "lost at 14" while a
/// break shows, or empty.
pub fn combo_sub_text(board: &ScoreBoard, broken_from: u32, break_active: bool) -> (s: String)
    ensures
        s@ == combo_sub_text_spec(board.combo, broken_from, break_active),
{
    if board.combo >= COMBO_VISIBLE_FROM {
        prefixed_decimal("x", board.combo_multiplier())
    } else if break_active {
        prefixed_decimal("lost at ", broken_from)
    } else {
        String::new()
    }
}

/// The lines of the game over screen: score, best combo and high score.
pub fn game_over_lines(board: &ScoreBoard) -> (lines: (String, String, String))
    ensures
        lines.0@ == "Score: "@ + decimal(board.score as nat),
        lines.1@ == "Best Combo: "@ + decimal(board.best_combo as nat),
        lines.2@ == "High Score: "@ + decimal(board.high_score as nat),
{
    (
        prefixed_decimal("Score: ", board.score),
        prefixed_decimal("Best Combo: ", board.best_combo),
        prefixed_decimal("High Score: ", board.high_score),
    )
}


/// The display cue depends only on how the combo moved: it holds still
/// exactly when the combo did not change, and a break shows exactly when a
/// visible combo fell.
pub proof fn lemma_cue_cases(last: u32, combo: u32)
    ensures
        cue_spec(last, combo) == ComboCue::Steady <==> last == combo,
        cue_spec(last, combo) == ComboCue::Rise <==> combo > last,
        cue_spec(last, combo) == ComboCue::Break <==> (combo < last && last
            >= COMBO_VISIBLE_FROM),
{
}

/// A miss that ends a visible combo is shown as a break, and the line
/// under the counter then reads "lost at" with the combo that was lost.
pub proof fn lemma_miss_shows_break(b: ScoreBoard, t: ComboTracker)
    requires
        t.last_combo == b.combo,
        b.combo >= COMBO_VISIBLE_FROM,
    ensures
        cue_spec(t.last_combo, b.after_spec(Judgment::Miss).combo) == ComboCue::Break,
        combo_text_spec(b.after_spec(Judgment::Miss).combo, true) == "COMBO BREAK"@,
        combo_sub_text_spec(b.after_spec(Judgment::Miss).combo, t.last_combo, true) == "lost at "@
            + decimal(b.combo as nat),
{
}


/// The HUD lines for every combo: from two hits on, the combo line is the
/// count and " COMBO", and the line under it is "x" and the single digit
/// of the multiplier that scoring applies (1 below five, 2 below ten, 3
/// below fifteen, 4 from then on), so it never reads more than x4. Below
/// two hits both lines show the break while it lasts, else nothing.
pub proof fn lemma_hud_lines(combo: u32, broken_from: u32, break_active: bool)
    ensures
        ({
            let m = if combo < 5 {
                1int
            } else if combo < 10 {
                2int
            } else if combo < 15 {
                3int
            } else {
                4int
            };
            &&& combo >= 2 ==> combo_sub_text_spec(combo, broken_from, break_active) == "x"@
                + seq![digit_char(m)]
            &&& combo >= 2 ==> combo_sub_text_spec(combo, broken_from, break_active) == "x"@
                + decimal(multiplier_spec(combo as int) as nat)
            &&& combo >= 2 ==> combo_text_spec(combo, break_active) == decimal(combo as nat)
                + " COMBO"@
            &&& combo < 2 && break_active ==> combo_text_spec(combo, break_active)
                == "COMBO BREAK"@ && combo_sub_text_spec(combo, broken_from, break_active)
                == "lost at "@ + decimal(broken_from as nat)
            &&& combo < 2 && !break_active ==> combo_text_spec(combo, break_active).len() == 0
                && combo_sub_text_spec(combo, broken_from, break_active).len() == 0
        }),
{
    crate::scoring::lemma_multiplier_values(combo as int);
    let mm = multiplier_spec(combo as int);
    assert(decimal(mm as nat) == seq![digit_char(mm)]);
}


/// The counter's look: the first below ten hits, the second from ten, the
/// third from twenty on; the counter shows from two hits on.
pub proof fn lemma_stage_values(combo: u32)
    ensures
        stage_spec(combo) == if combo < 10 {
            0u8
        } else if combo < 20 {
            1u8
        } else {
            2u8
        },
        COMBO_VISIBLE_FROM == 2,
{
}

} // verus!
