//! The screen shown when a challenge ends: the score, and buttons to keep
//! simulating, try again, go on to the next challenge or back to the list.
use vstd::prelude::*;
use vstd::string::*;
use crate::gameplay::GameplayMode;

verus! {

/// The buttons of the screen.
#[derive(Clone, Copy, Debug, PartialEq, Eq, Structural)]
pub enum FinalScoreButton {
    KeepSimulating,
    TryAgain,
    NextChallenge,
    BackToChallenges,
}

pub open spec fn spec_button_of_label(label: Seq<char>) -> Option<FinalScoreButton> {
    if label == "Keep simulating"@ {
        Some(FinalScoreButton::KeepSimulating)
    } else if label == "Try again"@ {
        Some(FinalScoreButton::TryAgain)
    } else if label == "Next challenge"@ {
        Some(FinalScoreButton::NextChallenge)
    } else if label == "Back to challenges"@ {
        Some(FinalScoreButton::BackToChallenges)
    } else {
        None
    }
}

fn label_is(label: &str, word: &str) -> (r: bool)
    ensures
        r == (label@ == word@),
{
    String::from_str(label) == String::from_str(word)
}

impl FinalScoreButton {
    /// The button that carries a label, if any does.
    pub fn from_label(label: &str) -> (r: Option<FinalScoreButton>)
        ensures
            r == spec_button_of_label(label@),
    {
        if label_is(label, "Keep simulating") {
            Some(FinalScoreButton::KeepSimulating)
        } else if label_is(label, "Try again") {
            Some(FinalScoreButton::TryAgain)
        } else if label_is(label, "Next challenge") {
            Some(FinalScoreButton::NextChallenge)
        } else if label_is(label, "Back to challenges") {
            Some(FinalScoreButton::BackToChallenges)
        } else {
            None
        }
    }
}

/// Where the game goes after an event on the screen.
#[derive(Clone, Copy, Debug, PartialEq, Eq, Structural)]
pub enum Transition {
    /// Stay on the screen.
    Keep,
    /// Close the screen and keep simulating.
    Pop,
    /// Close the screen and restart the sandbox in the mode that was played.
    TryAgain,
    /// Ask first whether to save the edits made to the map.
    SaveEditsFirst,
    /// Clear everything, and start the next challenge after the main menu.
    NextChallenge,
    /// Clear everything, and show the list of challenges after the main menu.
    BackToChallenges,
}

/// The state of the screen.
pub struct FinalScore<M> {
    retry: GameplayMode<M>,
    next_mode: Option<GameplayMode<M>>,
    chose_next: bool,
    chose_back_to_challenges: bool,
}

impl<M> FinalScore<M> {
    /// The next challenge is only ever chosen where there is one.
    pub open spec fn wf(&self) -> bool {
        self.spec_chose_next() ==> self.spec_next_mode() is Some
    }

    pub closed spec fn spec_retry(&self) -> GameplayMode<M> {
        self.retry
    }

    pub closed spec fn spec_next_mode(&self) -> Option<GameplayMode<M>> {
        self.next_mode
    }

    pub closed spec fn spec_chose_next(&self) -> bool {
        self.chose_next
    }

    pub closed spec fn spec_chose_back_to_challenges(&self) -> bool {
        self.chose_back_to_challenges
    }

    /// What a screen whose choices stand as recorded does without a click.
    pub open spec fn after_choice(&self) -> Transition {
        if self.spec_chose_next() {
            Transition::NextChallenge
        } else if self.spec_chose_back_to_challenges() {
            Transition::BackToChallenges
        } else {
            Transition::Keep
        }
    }

    /// A fresh screen after playing `mode`; `next_mode` is the challenge that
    /// follows, if any.
    pub fn new_state(mode: GameplayMode<M>, next_mode: Option<GameplayMode<M>>) -> (r: FinalScore<M>)
        ensures
            r.wf(),
            r.spec_retry() == mode,
            r.spec_next_mode() == next_mode,
            !r.spec_chose_next(),
            !r.spec_chose_back_to_challenges(),
    {
        FinalScore { retry: mode, next_mode, chose_next: false, chose_back_to_challenges: false }
    }

    /// The mode that trying again restarts.
    pub fn retry(&self) -> (r: &GameplayMode<M>)
        ensures
            *r == self.spec_retry(),
    {
        &self.retry
    }

    /// The challenge that follows, if any.
    pub fn next_mode(&self) -> (r: &Option<GameplayMode<M>>)
        ensures
            *r == self.spec_next_mode(),
    {
        &self.next_mode
    }

    /// Whether the screen offers the button to the next challenge.
    pub fn has_next_challenge(&self) -> (r: bool)
        ensures
            r == self.spec_next_mode() is Some,
    {
        self.next_mode.is_some()
    }

    /// Handles one event: the button clicked, if any, and whether the map
    /// holds edits that were not saved. Going on or back records the choice;
    /// with unsaved edits it first asks to save them, and the recorded choice
    /// is carried out at the next event.
    pub fn event(&mut self, clicked: Option<FinalScoreButton>, unsaved_edits: bool) -> (r: Transition)
        requires
            old(self).wf(),
            clicked == Some(FinalScoreButton::NextChallenge) ==> old(self).spec_next_mode() is Some,
        ensures
            final(self).wf(),
            final(self).spec_retry() == old(self).spec_retry(),
            final(self).spec_next_mode() == old(self).spec_next_mode(),
            final(self).spec_chose_next() == (old(self).spec_chose_next() || clicked
                == Some(FinalScoreButton::NextChallenge)),
            final(self).spec_chose_back_to_challenges() == (
            old(self).spec_chose_back_to_challenges() || clicked == Some(
                FinalScoreButton::BackToChallenges,
            )),
            clicked == Some(FinalScoreButton::KeepSimulating) ==> r == Transition::Pop,
            clicked == Some(FinalScoreButton::TryAgain) ==> r == Transition::TryAgain,
            (clicked == Some(FinalScoreButton::NextChallenge) || clicked == Some(
                FinalScoreButton::BackToChallenges,
            )) ==> r == if unsaved_edits {
                Transition::SaveEditsFirst
            } else {
                final(self).after_choice()
            },
            clicked is None ==> r == old(self).after_choice(),
    {
        match clicked {
            Some(FinalScoreButton::KeepSimulating) => {
                return Transition::Pop;
            },
            Some(FinalScoreButton::TryAgain) => {
                return Transition::TryAgain;
            },
            Some(FinalScoreButton::NextChallenge) => {
                self.chose_next = true;
                if unsaved_edits {
                    return Transition::SaveEditsFirst;
                }
            },
            Some(FinalScoreButton::BackToChallenges) => {
                self.chose_back_to_challenges = true;
                if unsaved_edits {
                    return Transition::SaveEditsFirst;
                }
            },
            None => {},
        }
        if self.chose_next {
            Transition::NextChallenge
        } else if self.chose_back_to_challenges {
            Transition::BackToChallenges
        } else {
            Transition::Keep
        }
    }
}

} // verus!
