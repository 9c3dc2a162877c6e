use pulse::scoring::{Judgment, ScoreBoard};
use pulse::sound::{PlaySoundEffect, SoundEffect};

fn board(score: u32, combo: u32, best_combo: u32, high_score: u32) -> ScoreBoard {
    ScoreBoard { score, combo, best_combo, high_score }
}

#[test]
fn multiplier_steps_every_five_and_caps_at_four() {
    let expected = [(0, 1), (4, 1), (5, 2), (9, 2), (10, 3), (14, 3), (15, 4), (19, 4), (20, 4), (1000, 4)];
    for (combo, m) in expected {
        assert_eq!(board(0, combo, combo, 0).combo_multiplier(), m, "combo {}", combo);
    }
    assert_eq!(board(0, u32::MAX, u32::MAX, 0).combo_multiplier(), 4);
}

#[test]
fn new_board_is_all_zero() {
    assert_eq!(ScoreBoard::new(), board(0, 0, 0, 0));
}

#[test]
fn reset_keeps_only_the_high_score() {
    let mut b = board(1234, 7, 9, 5000);
    b.reset();
    assert_eq!(b, board(0, 0, 0, 5000));
}

#[test]
fn perfect_hit_scores_with_the_new_multiplier() {
    let mut b = board(1000, 4, 4, 0);
    let sounds = b.apply_judgment(Judgment::Perfect);
    // The fifth hit in a row is already worth twice.
    assert_eq!(b, board(1200, 5, 5, 0));
    assert_eq!(
        sounds,
        vec![
            PlaySoundEffect(SoundEffect::HitPerfect { combo: 5 }),
            PlaySoundEffect(SoundEffect::Combo { combo: 5 }),
        ]
    );
}

#[test]
fn good_hit_scores_fifty_times_multiplier() {
    let mut b = board(0, 0, 3, 0);
    let sounds = b.apply_judgment(Judgment::Good);
    assert_eq!(b, board(50, 1, 3, 0));
    assert_eq!(sounds, vec![PlaySoundEffect(SoundEffect::HitGood { combo: 1 })]);

    let mut b = board(0, 14, 14, 0);
    b.apply_judgment(Judgment::Good);
    assert_eq!(b.score, 200);
}

#[test]
fn perfect_is_worth_twice_good() {
    for combo in [0u32, 3, 4, 9, 13, 30] {
        let mut p = board(0, combo, combo, 0);
        let mut g = board(0, combo, combo, 0);
        p.apply_judgment(Judgment::Perfect);
        g.apply_judgment(Judgment::Good);
        assert_eq!(p.score, 2 * g.score);
    }
}

#[test]
fn miss_breaks_the_combo_and_keeps_the_score() {
    let mut b = board(900, 12, 15, 100);
    let sounds = b.apply_judgment(Judgment::Miss);
    assert_eq!(b, board(900, 0, 15, 100));
    assert_eq!(sounds, vec![PlaySoundEffect(SoundEffect::Miss)]);
}

#[test]
fn best_combo_follows_a_new_record() {
    let mut b = board(0, 2, 2, 0);
    b.apply_judgment(Judgment::Good);
    assert_eq!(b.best_combo, 3);
    b.apply_judgment(Judgment::Miss);
    b.apply_judgment(Judgment::Good);
    assert_eq!((b.combo, b.best_combo), (1, 3));
}

#[test]
fn jingle_only_on_milestones() {
    let mut b = ScoreBoard::new();
    for n in 1..=20u32 {
        let sounds = b.apply_judgment(Judgment::Perfect);
        let jingle = sounds.contains(&PlaySoundEffect(SoundEffect::Combo { combo: n }));
        assert_eq!(jingle, n % 5 == 0, "combo {}", n);
        assert_eq!(sounds.len(), if n % 5 == 0 { 2 } else { 1 });
    }
}

#[test]
fn finish_round_records_a_new_high_score() {
    let mut b = board(800, 0, 3, 500);
    b.finish_round();
    assert_eq!(b.high_score, 800);
    let mut b = board(300, 0, 3, 500);
    b.finish_round();
    assert_eq!(b.high_score, 500);
}

#[test]
fn can_apply_guards_the_counters() {
    assert!(board(0, 0, 0, 0).can_apply(Judgment::Perfect));
    assert!(!board(0, u32::MAX, u32::MAX, 0).can_apply(Judgment::Good));
    assert!(board(0, u32::MAX, u32::MAX, 0).can_apply(Judgment::Miss));
    // 100 points times a multiplier of 4 fit exactly.
    assert!(board(u32::MAX - 400, 20, 20, 0).can_apply(Judgment::Perfect));
    assert!(!board(u32::MAX - 399, 20, 20, 0).can_apply(Judgment::Perfect));
    assert!(board(u32::MAX - 399, 20, 20, 0).can_apply(Judgment::Good));
}

#[test]
fn judgment_labels_and_points() {
    assert_eq!(Judgment::Perfect.label(), "PERFECT");
    assert_eq!(Judgment::Good.label(), "GOOD");
    assert_eq!(Judgment::Miss.label(), "MISS");
    assert_eq!(Judgment::Perfect.base_points(), 100);
    assert_eq!(Judgment::Good.base_points(), 50);
    assert_eq!(Judgment::Miss.base_points(), 0);
}

#[test]
fn a_round_never_lowers_score_and_keeps_best_combo_ahead() {
    let taps = [
        Judgment::Perfect, Judgment::Good, Judgment::Miss, Judgment::Perfect, Judgment::Perfect,
        Judgment::Good, Judgment::Perfect, Judgment::Perfect, Judgment::Miss, Judgment::Good,
    ];
    let mut b = board(0, 0, 0, 777);
    let mut last_score = 0;
    for j in taps {
        b.apply_judgment(j);
        assert!(b.score >= last_score);
        assert!(b.best_combo >= b.combo);
        assert_eq!(b.high_score, 777);
        last_score = b.score;
    }
    // 100 + 50 | 100 + 100 + 50 + 100 + 2 * 100 | 50
    assert_eq!(b.score, 750);
    assert_eq!(b.best_combo, 5);
}
