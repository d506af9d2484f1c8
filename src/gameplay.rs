//! Gameplay modes of the sandbox: which map and which scenario each one
//! loads, which map edits it permits, and the end-of-challenge screen.
use vstd::prelude::*;
use vstd::string::*;

verus! {

/// A city, named by its country and its own name.
#[derive(Clone, Debug, PartialEq, Eq, PartialOrd, Ord, Hash)]
pub struct CityName {
    pub country: String,
    pub city: String,
}

/// A map within a city.
#[derive(Clone, Debug, PartialEq, Eq, PartialOrd, Ord, Hash)]
pub struct MapName {
    pub city: CityName,
    pub map: String,
}

pub struct MapNameView {
    pub country: Seq<char>,
    pub city: Seq<char>,
    pub map: Seq<char>,
}

impl View for MapName {
    type V = MapNameView;

    open spec fn view(&self) -> MapNameView {
        MapNameView { country: self.city.country@, city: self.city.city@, map: self.map@ }
    }
}

pub open spec fn seattle_map(map: Seq<char>) -> MapNameView {
    MapNameView { country: "us"@, city: "seattle"@, map }
}

impl MapName {
    pub fn new(country: &str, city: &str, map: &str) -> (r: MapName)
        ensures
            r@ == (MapNameView { country: country@, city: city@, map: map@ }),
    {
        MapName {
            city: CityName { country: String::from_str(country), city: String::from_str(city) },
            map: String::from_str(map),
        }
    }

    /// A map of Seattle.
    pub fn seattle(map: &str) -> (r: MapName)
        ensures
            r@ == seattle_map(map@),
    {
        MapName::new("us", "seattle", map)
    }

    fn duplicate(&self) -> (r: MapName)
        ensures
            r@ == self@,
    {
        MapName {
            city: CityName { country: self.city.country.clone(), city: self.city.city.clone() },
            map: self.map.clone(),
        }
    }
}

/// A person of the imported travel survey.
#[derive(Clone, Copy, Debug, PartialEq, Eq, PartialOrd, Ord, Hash)]
pub struct OrigPersonID(pub usize, pub usize);

/// A span of simulated time, in milliseconds.
#[derive(Clone, Copy, Debug, PartialEq, Eq, PartialOrd, Ord, Hash)]
pub struct Duration {
    pub millis: u64,
}

/// A stage of the tutorial and a part within it.
#[derive(Clone, Copy, Debug, PartialEq, Eq, PartialOrd, Ord, Hash)]
pub struct TutorialPointer {
    pub stage: usize,
    pub part: usize,
}

/// What the sandbox runs. `M` is the type of the modifiers that a scenario
/// is played with; they are carried through unread.
#[derive(Clone, Debug, PartialEq, Eq, PartialOrd, Ord)]
pub enum GameplayMode<M> {
    Freeform(MapName),
    /// Map, scenario name, modifiers.
    PlayScenario(MapName, String, Vec<M>),
    FixTrafficSignals,
    OptimizeCommute(OrigPersonID, Duration),
    /// Map, scenario name, whether background traffic is added.
    Actdev(MapName, String, bool),
    Tutorial(TutorialPointer),
}

/// Where the scenario of a mode comes from.
pub enum LoadScenario {
    /// An empty scenario named `empty` that seeds no buses.
    Empty,
    /// The one that this tutorial stage generates, if it has one.
    TutorialStage(TutorialPointer),
    /// A small random run generated over the map.
    SmallRun,
    /// Generated trips from homes to workplaces.
    HomeToWork,
    /// Generated from census data for the map's area.
    Census,
    /// The saved scenario of this name for the map.
    Saved(String),
}

/// What the sandbox lets the player do while a mode runs. Each mode's state
/// implements this; by default everything is allowed.
pub trait GameplayState {
    fn can_move_canvas(&self) -> bool {
        true
    }

    fn can_examine_objects(&self) -> bool {
        true
    }

    fn has_common(&self) -> bool {
        true
    }

    fn has_tool_panel(&self) -> bool {
        true
    }

    fn has_time_panel(&self) -> bool {
        true
    }

    fn has_minimap(&self) -> bool {
        true
    }
}

/// The kind of a change to an intersection.
#[derive(Clone, Copy, Debug, PartialEq, Eq, Structural)]
pub enum EditIntersection {
    StopSign,
    TrafficSignal,
    Closed,
}

/// One recorded edit of the map, as far as the modes tell edits apart.
#[derive(Clone, Copy, Debug, PartialEq, Eq, Structural)]
pub enum EditCmd {
    ChangeRoad,
    ChangeIntersection { new: EditIntersection },
    ChangeRouteSchedule,
}

/// The edits made to a map, in order.
pub struct MapEdits {
    pub commands: Vec<EditCmd>,
}

/// The name of the scenario that a mode plays, where it plays one by name.
pub open spec fn scenario_name<M>(mode: GameplayMode<M>) -> Seq<char> {
    match mode {
        GameplayMode::PlayScenario(_, scenario, _) => scenario@,
        GameplayMode::Actdev(_, scenario, bg_traffic) => if bg_traffic {
            scenario@ + "_with_bg"@
        } else {
            scenario@
        },
        _ => "weekday"@,
    }
}

/// Where the scenario of a given name comes from: three names stand for
/// scenarios generated on the spot, any other for a saved one.
pub open spec fn load_named(name: Seq<char>, r: LoadScenario) -> bool {
    if name == "random"@ {
        r is SmallRun
    } else if name == "home_to_work"@ {
        r is HomeToWork
    } else if name == "census"@ {
        r is Census
    } else {
        r is Saved && r->Saved_0@ == name
    }
}

fn is_named(name: &String, word: &str) -> (r: bool)
    ensures
        r == (name@ == word@),
{
    let w = String::from_str(word);
    *name == w
}

impl<M> GameplayMode<M> {
    pub open spec fn spec_map_name(&self) -> MapNameView {
        match self {
            GameplayMode::Freeform(name) => name@,
            GameplayMode::PlayScenario(name, _, _) => name@,
            GameplayMode::FixTrafficSignals => seattle_map("downtown"@),
            GameplayMode::OptimizeCommute(_, _) => seattle_map("montlake"@),
            GameplayMode::Tutorial(_) => seattle_map("montlake"@),
            GameplayMode::Actdev(name, _, _) => name@,
        }
    }

    /// The map that the mode is played on.
    pub fn map_name(&self) -> (r: MapName)
        ensures
            r@ == self.spec_map_name(),
    {
        match self {
            GameplayMode::Freeform(name) => name.duplicate(),
            GameplayMode::PlayScenario(name, _, _) => name.duplicate(),
            GameplayMode::FixTrafficSignals => MapName::seattle("downtown"),
            GameplayMode::OptimizeCommute(_, _) => MapName::seattle("montlake"),
            GameplayMode::Tutorial(_) => MapName::seattle("montlake"),
            GameplayMode::Actdev(name, _, _) => name.duplicate(),
        }
    }

    /// Where the mode's scenario comes from.
    pub fn scenario(&self) -> (r: LoadScenario)
        ensures
            self is Freeform ==> r is Empty,
            self is Tutorial ==> r == LoadScenario::TutorialStage(self->Tutorial_0),
            !(self is Freeform) && !(self is Tutorial) ==> load_named(scenario_name(*self), r),
    {
        let name = match self {
            GameplayMode::Freeform(_) => {
                return LoadScenario::Empty;
            },
            GameplayMode::Tutorial(current) => {
                return LoadScenario::TutorialStage(*current);
            },
            GameplayMode::PlayScenario(_, scenario, _) => scenario.clone(),
            GameplayMode::Actdev(_, scenario, bg_traffic) => {
                if *bg_traffic {
                    scenario.clone().concat("_with_bg")
                } else {
                    scenario.clone()
                }
            },
            GameplayMode::FixTrafficSignals | GameplayMode::OptimizeCommute(_, _) => {
                String::from_str("weekday")
            },
        };
        if is_named(&name, "random") {
            LoadScenario::SmallRun
        } else if is_named(&name, "home_to_work") {
            LoadScenario::HomeToWork
        } else if is_named(&name, "census") {
            LoadScenario::Census
        } else {
            LoadScenario::Saved(name)
        }
    }

    pub open spec fn spec_can_edit_roads(&self) -> bool {
        !(self is FixTrafficSignals)
    }

    pub open spec fn spec_can_edit_stop_signs(&self) -> bool {
        !(self is FixTrafficSignals)
    }

    pub fn can_edit_roads(&self) -> (r: bool)
        ensures
            r == self.spec_can_edit_roads(),
    {
        !matches!(self, GameplayMode::FixTrafficSignals)
    }

    pub fn can_edit_stop_signs(&self) -> (r: bool)
        ensures
            r == self.spec_can_edit_stop_signs(),
    {
        !matches!(self, GameplayMode::FixTrafficSignals)
    }

    pub fn can_jump_to_time(&self) -> (r: bool)
        ensures
            r == !(self is Freeform),
    {
        !matches!(self, GameplayMode::Freeform(_))
    }

    /// Whether the mode permits one edit. Changes to an intersection count as
    /// stop sign edits when they make it a stop sign or close it.
    pub open spec fn permits(&self, cmd: EditCmd) -> bool {
        match cmd {
            EditCmd::ChangeRoad => self.spec_can_edit_roads(),
            EditCmd::ChangeIntersection { new } => match new {
                EditIntersection::TrafficSignal => true,
                _ => self.spec_can_edit_stop_signs(),
            },
            EditCmd::ChangeRouteSchedule => true,
        }
    }

    /// Whether the mode permits every one of the edits.
    pub fn allows(&self, edits: &MapEdits) -> (r: bool)
        ensures
            r == forall|i: int| 0 <= i < edits.commands@.len() ==> self.permits(
                #[trigger] edits.commands@[i],
            ),
    {
        let mut i: usize = 0;
        while i < edits.commands.len()
            invariant
                i <= edits.commands@.len(),
                forall|k: int| 0 <= k < i ==> self.permits(#[trigger] edits.commands@[k]),
            decreases edits.commands@.len() - i,
        {
            let ok = match edits.commands[i] {
                EditCmd::ChangeRoad => self.can_edit_roads(),
                EditCmd::ChangeIntersection { new } => match new {
                    EditIntersection::TrafficSignal => true,
                    _ => self.can_edit_stop_signs(),
                },
                EditCmd::ChangeRouteSchedule => true,
            };
            if !ok {
                return false;
            }
            i = i + 1;
        }
        true
    }
}

} // verus!
