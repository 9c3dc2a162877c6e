use vstd::prelude::*;
use crate::scoring::ScoreBoard;
use crate::sound::{PlaySoundEffect, SoundEffect};

verus! {

/// The screens of the game.
#[derive(Clone, Copy, Debug, PartialEq, Eq, Hash, Structural)]
pub enum AppState {
    Title,
    Playing,
    GameOver,
}

/// What happened on a frame that may move the game to another screen.
#[derive(Clone, Copy, Debug, PartialEq, Eq, Structural)]
pub enum FlowEvent {
    /// A click, a tap, Space or Enter on the title screen; `slider_held`
    /// tells whether the volume slider is being pressed at the same time.
    StartPressed { slider_held: bool },
    /// The round clock ran out.
    TimeUp,
    /// Space, Enter or the Retry button on the game over screen.
    RetryPressed,
}

/// The screen, the board and the sounds after `event` on `state`. Each
/// event only acts on its own screen; elsewhere nothing changes.
pub open spec fn flow_spec(state: AppState, board: ScoreBoard, event: FlowEvent) -> (
    AppState,
    ScoreBoard,
    Seq<PlaySoundEffect>,
) {
    match (state, event) {
        (AppState::Title, FlowEvent::StartPressed { slider_held }) => if slider_held {
            (state, board, Seq::empty())
        } else {
            (AppState::Playing, board.reset_spec(), Seq::empty())
        },
        (AppState::Playing, FlowEvent::TimeUp) => (
            AppState::GameOver,
            board.finish_round_spec(),
            Seq::empty(),
        ),
        (AppState::GameOver, FlowEvent::RetryPressed) => (
            AppState::Playing,
            board.reset_spec(),
            seq![PlaySoundEffect(SoundEffect::UiClick)],
        ),
        _ => (state, board, Seq::empty()),
    }
}

/// Moves between screens: a start input on the title screen starts a round
/// unless the volume slider is held; when the clock runs out the round ends
/// and its score may become the high score; a retry clicks and starts a new
/// round. Starting a round clears the board but the high score.
pub fn next_state(state: AppState, board: &mut ScoreBoard, event: FlowEvent) -> (r: (
    AppState,
    Vec<PlaySoundEffect>,
))
    ensures
        r.0 == flow_spec(state, *old(board), event).0,
        *final(board) == flow_spec(state, *old(board), event).1,
        r.1@ == flow_spec(state, *old(board), event).2,
{
    let mut sounds: Vec<PlaySoundEffect> = Vec::new();
    match (state, event) {
        (AppState::Title, FlowEvent::StartPressed { slider_held }) => {
            if slider_held {
                (state, sounds)
            } else {
                board.reset();
                (AppState::Playing, sounds)
            }
        },
        (AppState::Playing, FlowEvent::TimeUp) => {
            board.finish_round();
            (AppState::GameOver, sounds)
        },
        (AppState::GameOver, FlowEvent::RetryPressed) => {
            sounds.push(PlaySoundEffect(SoundEffect::UiClick));
            board.reset();
            (AppState::Playing, sounds)
        },
        _ => (state, sounds),
    }
}

/// Whatever the screen and the event: the high score never goes down, the
/// board stays well formed, every round starts from a cleared board, and
/// the game over screen always shows a high score at least the round's
/// score.
pub proof fn lemma_flow_step(state: AppState, board: ScoreBoard, event: FlowEvent)
    requires
        board.wf(),
    ensures
        flow_spec(state, board, event).1.wf(),
        flow_spec(state, board, event).1.high_score >= board.high_score,
        flow_spec(state, board, event).0 == AppState::Playing && state != AppState::Playing
            ==> flow_spec(state, board, event).1 == board.reset_spec()
            && flow_spec(state, board, event).1 == (ScoreBoard {
                score: 0,
                combo: 0,
                best_combo: 0,
                high_score: board.high_score,
            }),
        flow_spec(state, board, event).0 == AppState::GameOver && state == AppState::Playing
            ==> flow_spec(state, board, event).1.high_score >= board.score,
        state == AppState::Playing ==> (flow_spec(state, board, event).0 == AppState::GameOver
            <==> event == FlowEvent::TimeUp),
        state == AppState::Playing && event == FlowEvent::TimeUp ==> flow_spec(
            state,
            board,
            event,
        ).1 == (ScoreBoard {
            high_score: if board.score > board.high_score {
                board.score
            } else {
                board.high_score
            },
            ..board
        }),
        flow_spec(state, board, event).0 == state ==> flow_spec(state, board, event).1 == board
            && flow_spec(state, board, event).2.len() == 0,
        state == AppState::Title ==> (flow_spec(state, board, event).0 == AppState::Playing
            <==> event == FlowEvent::StartPressed { slider_held: false }),
        state == AppState::GameOver ==> (flow_spec(state, board, event).0 == AppState::Playing
            <==> event == FlowEvent::RetryPressed),
        flow_spec(state, board, event).2.len() > 0 ==> state == AppState::GameOver
            && flow_spec(state, board, event).2 == seq![PlaySoundEffect(SoundEffect::UiClick)],
{
}

} // verus!
