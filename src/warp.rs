//! The warp tool: the user types a short code such as `r42` and the camera
//! jumps to that object of the map.
use vstd::prelude::*;
use vstd::string::*;
use crate::decimal::{is_index, index_value, parse_index};

verus! {

/// An object of the map that the camera can be moved to.
#[derive(Clone, Copy, Debug, PartialEq, Eq, Structural)]
pub enum WarpTarget {
    Road(usize),
    Intersection(usize),
    Building(usize),
    Parcel(usize),
}

impl WarpTarget {
    /// Whether warping to this object also selects it (parcels cannot be
    /// selected).
    pub fn selects(&self) -> (r: bool)
        ensures
            r == !(*self is Parcel),
    {
        !matches!(self, WarpTarget::Parcel(_))
    }
}

/// The object that a code names: a letter for the kind of object (`r` road,
/// `i` intersection, `b` building, `p` parcel) followed by its index.
pub open spec fn spec_warp_target(line: Seq<char>) -> Option<WarpTarget> {
    if line.len() == 0 || !is_index(line.drop_first()) {
        None
    } else {
        let idx = index_value(line.drop_first()) as usize;
        if line[0] == 'r' {
            Some(WarpTarget::Road(idx))
        } else if line[0] == 'i' {
            Some(WarpTarget::Intersection(idx))
        } else if line[0] == 'b' {
            Some(WarpTarget::Building(idx))
        } else if line[0] == 'p' {
            Some(WarpTarget::Parcel(idx))
        } else {
            None
        }
    }
}

/// Reads a typed code; `None` where it names no object.
pub fn parse_warp_target(line: &str) -> (r: Option<WarpTarget>)
    ensures
        r == spec_warp_target(line@),
{
    if line.unicode_len() == 0 {
        return None;
    }
    let parsed = parse_index(line, 1);
    assert(line@.subrange(1, line@.len() as int) =~= line@.drop_first());
    match parsed {
        None => None,
        Some(idx) => {
            let kind = line.get_char(0);
            if kind == 'r' {
                Some(WarpTarget::Road(idx))
            } else if kind == 'i' {
                Some(WarpTarget::Intersection(idx))
            } else if kind == 'b' {
                Some(WarpTarget::Building(idx))
            } else if kind == 'p' {
                Some(WarpTarget::Parcel(idx))
            } else {
                None
            }
        },
    }
}

/// Whether the user is typing a code, and what has been typed so far.
pub enum WarpState {
    Empty,
    EnteringSearch(String),
}

/// One input, as the tool sees it.
pub enum WarpInput {
    /// The key that opens the search box was pressed.
    StartSearch,
    /// While searching, the search box has handled the input: the text it now
    /// holds, and whether the user confirmed it.
    SearchBox { line: String, confirmed: bool },
    /// Anything else.
    Other,
}

/// What the shell does after an input.
pub enum WarpAction {
    /// The input is left to others.
    Ignored,
    /// The input was used; nothing else happens.
    Consumed,
    /// The input was used: center the camera on the object, and select it
    /// where `WarpTarget::selects` says so.
    Warp(WarpTarget),
    /// The input was used, and the confirmed text names no object; it is
    /// reported to the user.
    InvalidId(String),
}

impl WarpState {
    /// Handles one input. With no search open, the start key opens an empty
    /// one. With a search open, every input is used: a confirmed text closes
    /// the search and warps (or reports the text), any other keeps it open
    /// with the search box's text.
    pub fn event(self, input: WarpInput) -> (r: (WarpState, WarpAction))
        ensures
            self is Empty && input is StartSearch ==> r.0 is EnteringSearch
                && r.0->EnteringSearch_0@ == Seq::<char>::empty() && r.1 is Consumed,
            self is Empty && !(input is StartSearch) ==> r.0 is Empty && r.1 is Ignored,
            self is EnteringSearch && input is SearchBox && input->confirmed ==> r.0 is Empty
                && match spec_warp_target(input->SearchBox_line@) {
                Some(t) => r.1 == WarpAction::Warp(t),
                None => r.1 is InvalidId && r.1->InvalidId_0@ == input->SearchBox_line@,
            },
            self is EnteringSearch && input is SearchBox && !input->confirmed ==> r.0
                is EnteringSearch && r.0->EnteringSearch_0@ == input->SearchBox_line@
                && r.1 is Consumed,
            self is EnteringSearch && !(input is SearchBox) ==> r.0 is EnteringSearch
                && r.0->EnteringSearch_0@ == self->EnteringSearch_0@ && r.1 is Consumed,
    {
        match self {
            WarpState::Empty => match input {
                WarpInput::StartSearch => (WarpState::EnteringSearch(String::new()), WarpAction::Consumed),
                _ => (WarpState::Empty, WarpAction::Ignored),
            },
            WarpState::EnteringSearch(current) => match input {
                WarpInput::SearchBox { line, confirmed } => {
                    if confirmed {
                        match parse_warp_target(line.as_str()) {
                            Some(t) => (WarpState::Empty, WarpAction::Warp(t)),
                            None => (WarpState::Empty, WarpAction::InvalidId(line)),
                        }
                    } else {
                        (WarpState::EnteringSearch(line), WarpAction::Consumed)
                    }
                },
                _ => (WarpState::EnteringSearch(current), WarpAction::Consumed),
            },
        }
    }

    /// The lines shown on screen: the text typed so far while searching.
    pub fn get_osd_lines(&self) -> (r: Vec<String>)
        ensures
            self is Empty ==> r@.len() == 0,
            self is EnteringSearch ==> r@.len() == 1 && r@[0]@ == self->EnteringSearch_0@,
    {
        match self {
            WarpState::EnteringSearch(line) => {
                let mut v = Vec::new();
                v.push(line.clone());
                v
            },
            WarpState::Empty => Vec::new(),
        }
    }
}

} // verus!
