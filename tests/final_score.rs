use game_rules::final_score::{FinalScore, FinalScoreButton, Transition};
use game_rules::gameplay::{GameplayMode, TutorialPointer};

type Mode = GameplayMode<u32>;

fn screen(with_next: bool) -> FinalScore<u32> {
    let next: Option<Mode> = if with_next {
        Some(GameplayMode::Tutorial(TutorialPointer { stage: 1, part: 0 }))
    } else {
        None
    };
    FinalScore::new_state(GameplayMode::FixTrafficSignals, next)
}

#[test]
fn button_labels() {
    assert_eq!(FinalScoreButton::from_label("Keep simulating"), Some(FinalScoreButton::KeepSimulating));
    assert_eq!(FinalScoreButton::from_label("Try again"), Some(FinalScoreButton::TryAgain));
    assert_eq!(FinalScoreButton::from_label("Next challenge"), Some(FinalScoreButton::NextChallenge));
    assert_eq!(
        FinalScoreButton::from_label("Back to challenges"),
        Some(FinalScoreButton::BackToChallenges)
    );
    assert_eq!(FinalScoreButton::from_label("try again"), None);
    assert_eq!(FinalScoreButton::from_label(""), None);
}

#[test]
fn new_screen_holds_modes() {
    let s = screen(true);
    assert!(s.has_next_challenge());
    assert_eq!(*s.retry(), GameplayMode::FixTrafficSignals);
    assert!(s.next_mode().is_some());
    assert!(!screen(false).has_next_challenge());
}

#[test]
fn idle_screen_stays() {
    let mut s = screen(true);
    assert_eq!(s.event(None, true), Transition::Keep);
    assert_eq!(s.event(None, false), Transition::Keep);
}

#[test]
fn keep_simulating_and_try_again() {
    let mut s = screen(false);
    assert_eq!(s.event(Some(FinalScoreButton::KeepSimulating), true), Transition::Pop);
    assert_eq!(s.event(Some(FinalScoreButton::TryAgain), false), Transition::TryAgain);
    assert_eq!(s.event(None, false), Transition::Keep);
}

#[test]
fn next_challenge_without_unsaved_edits() {
    let mut s = screen(true);
    assert_eq!(s.event(Some(FinalScoreButton::NextChallenge), false), Transition::NextChallenge);
}

#[test]
fn next_challenge_asks_to_save_first() {
    let mut s = screen(true);
    assert_eq!(s.event(Some(FinalScoreButton::NextChallenge), true), Transition::SaveEditsFirst);
    assert_eq!(s.event(None, false), Transition::NextChallenge);
}

#[test]
fn back_to_challenges_asks_to_save_first() {
    let mut s = screen(false);
    assert_eq!(s.event(Some(FinalScoreButton::BackToChallenges), true), Transition::SaveEditsFirst);
    assert_eq!(s.event(None, true), Transition::BackToChallenges);
}

#[test]
fn back_to_challenges_without_unsaved_edits() {
    let mut s = screen(true);
    assert_eq!(s.event(Some(FinalScoreButton::BackToChallenges), false), Transition::BackToChallenges);
}

#[test]
fn recorded_next_choice_wins() {
    let mut s = screen(true);
    assert_eq!(s.event(Some(FinalScoreButton::NextChallenge), true), Transition::SaveEditsFirst);
    assert_eq!(s.event(Some(FinalScoreButton::BackToChallenges), false), Transition::NextChallenge);
}
