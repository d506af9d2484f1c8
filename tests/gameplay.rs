use game_rules::gameplay::{
    Duration, EditCmd, EditIntersection, GameplayMode, LoadScenario, MapEdits, MapName,
    OrigPersonID, TutorialPointer,
};

type Mode = GameplayMode<u32>;

fn all_modes() -> Vec<Mode> {
    vec![
        GameplayMode::Freeform(MapName::new("gb", "leeds", "center")),
        GameplayMode::PlayScenario(MapName::seattle("lakeslice"), "weekday".to_string(), vec![1, 2]),
        GameplayMode::FixTrafficSignals,
        GameplayMode::OptimizeCommute(OrigPersonID(3, 4), Duration { millis: 90_000 }),
        GameplayMode::Actdev(MapName::new("gb", "bristol", "main"), "base".to_string(), true),
        GameplayMode::Tutorial(TutorialPointer { stage: 2, part: 1 }),
    ]
}

#[test]
fn seattle_map_name() {
    let m = MapName::seattle("downtown");
    assert_eq!(m.city.country, "us");
    assert_eq!(m.city.city, "seattle");
    assert_eq!(m.map, "downtown");
}

#[test]
fn map_name_of_each_mode() {
    let names: Vec<MapName> = all_modes().iter().map(|m| m.map_name()).collect();
    assert_eq!(names[0], MapName::new("gb", "leeds", "center"));
    assert_eq!(names[1], MapName::seattle("lakeslice"));
    assert_eq!(names[2], MapName::seattle("downtown"));
    assert_eq!(names[3], MapName::seattle("montlake"));
    assert_eq!(names[4], MapName::new("gb", "bristol", "main"));
    assert_eq!(names[5], MapName::seattle("montlake"));
}

#[test]
fn freeform_and_tutorial_scenarios() {
    let modes = all_modes();
    assert!(matches!(modes[0].scenario(), LoadScenario::Empty));
    assert!(matches!(
        modes[5].scenario(),
        LoadScenario::TutorialStage(TutorialPointer { stage: 2, part: 1 })
    ));
}

#[test]
fn named_scenarios_are_saved_ones() {
    let modes = all_modes();
    assert!(matches!(modes[1].scenario(), LoadScenario::Saved(ref n) if n == "weekday"));
    assert!(matches!(modes[2].scenario(), LoadScenario::Saved(ref n) if n == "weekday"));
    assert!(matches!(modes[3].scenario(), LoadScenario::Saved(ref n) if n == "weekday"));
    assert!(matches!(modes[4].scenario(), LoadScenario::Saved(ref n) if n == "base_with_bg"));
    let no_bg: Mode = GameplayMode::Actdev(MapName::seattle("x"), "base".to_string(), false);
    assert!(matches!(no_bg.scenario(), LoadScenario::Saved(ref n) if n == "base"));
}

#[test]
fn generated_scenarios() {
    let play = |name: &str| -> Mode {
        GameplayMode::PlayScenario(MapName::seattle("montlake"), name.to_string(), vec![])
    };
    assert!(matches!(play("random").scenario(), LoadScenario::SmallRun));
    assert!(matches!(play("home_to_work").scenario(), LoadScenario::HomeToWork));
    assert!(matches!(play("census").scenario(), LoadScenario::Census));
    assert!(matches!(play("Random").scenario(), LoadScenario::Saved(ref n) if n == "Random"));
    let bg: Mode = GameplayMode::Actdev(MapName::seattle("x"), "census".to_string(), true);
    assert!(matches!(bg.scenario(), LoadScenario::Saved(ref n) if n == "census_with_bg"));
}

#[test]
fn edit_permissions() {
    for (i, m) in all_modes().iter().enumerate() {
        assert_eq!(m.can_edit_roads(), i != 2);
        assert_eq!(m.can_edit_stop_signs(), i != 2);
        assert_eq!(m.can_jump_to_time(), i != 0);
    }
}

#[test]
fn allows_checks_every_edit() {
    let fix: Mode = GameplayMode::FixTrafficSignals;
    let free: Mode = GameplayMode::Freeform(MapName::seattle("x"));
    let empty = MapEdits { commands: vec![] };
    assert!(fix.allows(&empty));
    let signals = MapEdits {
        commands: vec![
            EditCmd::ChangeIntersection { new: EditIntersection::TrafficSignal },
            EditCmd::ChangeRouteSchedule,
        ],
    };
    assert!(fix.allows(&signals));
    let with_road = MapEdits {
        commands: vec![EditCmd::ChangeRouteSchedule, EditCmd::ChangeRoad],
    };
    assert!(!fix.allows(&with_road));
    assert!(free.allows(&with_road));
    let stop = MapEdits {
        commands: vec![EditCmd::ChangeIntersection { new: EditIntersection::StopSign }],
    };
    assert!(!fix.allows(&stop));
    assert!(free.allows(&stop));
    let closed = MapEdits {
        commands: vec![EditCmd::ChangeIntersection { new: EditIntersection::Closed }],
    };
    assert!(!fix.allows(&closed));
    assert!(free.allows(&closed));
}
