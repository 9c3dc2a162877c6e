use pulse::flow::{next_state, AppState, FlowEvent};
use pulse::hud::{
    combo_stage, combo_sub_text, combo_text, combo_visible, game_over_lines, score_text, ComboCue,
    ComboTracker,
};
use pulse::scoring::{Judgment, ScoreBoard};
use pulse::sound::{PlaySoundEffect, SoundEffect};
use pulse::text::{decimal_string, prefixed_decimal};

fn board(score: u32, combo: u32, best_combo: u32, high_score: u32) -> ScoreBoard {
    ScoreBoard { score, combo, best_combo, high_score }
}

#[test]
fn decimal_matches_std_formatting() {
    for n in [0u32, 7, 9, 10, 99, 100, 1050, 65535, 4294967295] {
        assert_eq!(decimal_string(n), format!("{}", n));
    }
    assert_eq!(prefixed_decimal("x", 3), "x3");
}

#[test]
fn hud_lines() {
    assert_eq!(score_text(&board(12345, 0, 0, 0)), "12345");
    assert_eq!(combo_text(12, false), "12 COMBO");
    assert_eq!(combo_text(2, true), "2 COMBO");
    assert_eq!(combo_text(1, true), "COMBO BREAK");
    assert_eq!(combo_text(0, false), "");
    assert_eq!(combo_sub_text(&board(0, 12, 12, 0), 0, false), "x3");
    assert_eq!(combo_sub_text(&board(0, 0, 12, 0), 14, true), "lost at 14");
    assert_eq!(combo_sub_text(&board(0, 1, 12, 0), 14, false), "");
}

#[test]
fn game_over_screen_lines() {
    let (a, b, c) = game_over_lines(&board(4200, 0, 17, 9000));
    assert_eq!(a, "Score: 4200");
    assert_eq!(b, "Best Combo: 17");
    assert_eq!(c, "High Score: 9000");
}

#[test]
fn combo_stages() {
    assert!(!combo_visible(1));
    assert!(combo_visible(2));
    assert_eq!(combo_stage(0), 0);
    assert_eq!(combo_stage(9), 0);
    assert_eq!(combo_stage(10), 1);
    assert_eq!(combo_stage(19), 1);
    assert_eq!(combo_stage(20), 2);
    assert_eq!(combo_stage(u32::MAX), 2);
}

#[test]
fn tracker_cues() {
    let mut t = ComboTracker::new();
    assert_eq!(t.observe(0), ComboCue::Steady);
    assert_eq!(t.observe(1), ComboCue::Rise);
    assert_eq!(t.observe(0), ComboCue::Drop);
    assert_eq!(t.broken_from, 0);
    assert_eq!(t.observe(3), ComboCue::Rise);
    assert_eq!(t.observe(3), ComboCue::Steady);
    assert_eq!(t.observe(0), ComboCue::Break);
    assert_eq!(t, ComboTracker { last_combo: 0, broken_from: 3 });
    t.reset();
    assert_eq!(t, ComboTracker::new());
}

#[test]
fn a_lost_combo_reads_lost_at() {
    let mut b = board(0, 6, 6, 0);
    let mut t = ComboTracker { last_combo: 6, broken_from: 0 };
    b.apply_judgment(Judgment::Miss);
    assert_eq!(t.observe(b.combo), ComboCue::Break);
    assert_eq!(combo_text(b.combo, true), "COMBO BREAK");
    assert_eq!(combo_sub_text(&b, t.broken_from, true), "lost at 6");
}

#[test]
fn title_starts_a_round_unless_the_slider_is_held() {
    let mut b = board(300, 2, 4, 900);
    let (s, sounds) = next_state(AppState::Title, &mut b, FlowEvent::StartPressed { slider_held: true });
    assert_eq!((s, sounds), (AppState::Title, vec![]));
    assert_eq!(b, board(300, 2, 4, 900));
    let (s, sounds) = next_state(AppState::Title, &mut b, FlowEvent::StartPressed { slider_held: false });
    assert_eq!((s, sounds), (AppState::Playing, vec![]));
    assert_eq!(b, board(0, 0, 0, 900));
}

#[test]
fn time_up_ends_the_round_and_records_the_high_score() {
    let mut b = board(1500, 3, 8, 900);
    let (s, sounds) = next_state(AppState::Playing, &mut b, FlowEvent::TimeUp);
    assert_eq!((s, sounds), (AppState::GameOver, vec![]));
    assert_eq!(b, board(1500, 3, 8, 1500));
}

#[test]
fn retry_clicks_and_starts_over() {
    let mut b = board(1500, 3, 8, 1500);
    let (s, sounds) = next_state(AppState::GameOver, &mut b, FlowEvent::RetryPressed);
    assert_eq!(s, AppState::Playing);
    assert_eq!(sounds, vec![PlaySoundEffect(SoundEffect::UiClick)]);
    assert_eq!(b, board(0, 0, 0, 1500));
}

#[test]
fn events_for_other_screens_change_nothing() {
    let start = board(10, 1, 1, 20);
    for (state, event) in [
        (AppState::Title, FlowEvent::TimeUp),
        (AppState::Title, FlowEvent::RetryPressed),
        (AppState::Playing, FlowEvent::StartPressed { slider_held: false }),
        (AppState::Playing, FlowEvent::RetryPressed),
        (AppState::GameOver, FlowEvent::TimeUp),
        (AppState::GameOver, FlowEvent::StartPressed { slider_held: false }),
    ] {
        let mut b = start;
        let (s, sounds) = next_state(state, &mut b, event);
        assert_eq!((s, sounds.len(), b), (state, 0, start));
    }
}
