use dock_layout::area::{DockArea, LoadError};
use dock_layout::migration::{
    reset_prompt, MigrationAction, MigrationState, PromptLevel, EXPECTED_VERSION, RESET_OPTION,
};
use dock_layout::node::{Axis, DockNode};
use dock_layout::panel::{PanelRegistry, UnknownPanelKey};
use dock_layout::scheduler::{SaveDecision, SaveScheduler, TimerCommand, SAVE_DELAY_SECS};
use dock_layout::state::{DockState, LayoutState, NodeState, PanelState};
use dock_layout::workspace::{
    default_layout_state, AnswerOutcome, StoryWorkspace, DEFAULT_BOTTOM_SIZE, DEFAULT_LEFT_SIZE,
    DEFAULT_RIGHT_SIZE,
};

const STORIES: [&str; 17] = [
    "Button", "Input", "Dropdown", "Text", "Modal", "Popup", "Switch", "Progress", "Table",
    "Image", "Icon", "Tooltip", "Calendar", "Resizable", "Scrollable", "Accordion", "List",
];

fn story_registry() -> PanelRegistry {
    let mut registry = PanelRegistry::new();
    for (i, key) in STORIES.iter().enumerate() {
        registry.register(key.to_string(), i as u64);
    }
    registry
}

fn nothing() -> AnswerOutcome {
    AnswerOutcome { persist: None, timer: None }
}

fn entry(key: &str) -> PanelState {
    PanelState { panel_key: key.to_string(), params: String::new() }
}

fn stored(version: Option<u64>) -> LayoutState {
    LayoutState {
        version,
        root: NodeState::Tabs { panels: vec![entry("Text"), entry("Modal")], active_index: 1 },
        left: None,
        right: Some(DockState { panels: vec![entry("Icon")], size: Some(100) }),
        bottom: None,
    }
}

fn expected_default() -> LayoutState {
    let tabs = [
        "Button", "Input", "Dropdown", "Text", "Modal", "Popup", "Switch", "Progress", "Table",
        "Image", "Icon", "Tooltip", "Progress", "Calendar", "Resizable", "Scrollable",
        "Accordion",
    ];
    LayoutState {
        version: Some(5),
        root: NodeState::Split {
            axis: Axis::Vertical,
            items: vec![NodeState::Tabs {
                panels: tabs.iter().map(|key| entry(key)).collect(),
                active_index: 0,
            }],
            sizes: vec![None],
        },
        left: Some(DockState { panels: vec![entry("List")], size: Some(350) }),
        right: Some(DockState { panels: vec![entry("Image")], size: Some(320) }),
        bottom: Some(DockState { panels: vec![entry("Tooltip"), entry("Icon")], size: Some(200) }),
    }
}

#[test]
fn default_layout_is_the_fixed_arrangement() {
    assert_eq!(EXPECTED_VERSION, 5);
    assert_eq!(DEFAULT_LEFT_SIZE, 350);
    assert_eq!(DEFAULT_BOTTOM_SIZE, 200);
    assert_eq!(DEFAULT_RIGHT_SIZE, 320);
    assert_eq!(default_layout_state(), expected_default());
}

#[test]
fn default_root_is_built_through_the_registry() {
    let registry = story_registry();
    let root = StoryWorkspace::init_default_layout(&registry).unwrap();
    assert!(root.is_valid());
    assert_eq!(root.dump(), expected_default().root);
    match root {
        DockNode::Split { children, .. } => match &children[0] {
            DockNode::Tabs { panels, active_index } => {
                assert_eq!(panels.len(), 17);
                assert_eq!(*active_index, 0);
                assert_eq!(panels[7].factory, 7);
                assert_eq!(panels[12].factory, 7);
                assert_eq!(panels[16].factory, 15);
            }
            DockNode::Split { .. } => panic!("the default root holds one tab group"),
        },
        DockNode::Tabs { .. } => panic!("the default root is a split"),
    }
}

#[test]
fn default_layout_needs_its_panels_registered() {
    let mut registry = PanelRegistry::new();
    registry.register("Button".to_string(), 0);
    assert_eq!(
        StoryWorkspace::init_default_layout(&registry),
        Err(UnknownPanelKey { key: "Input".to_string() })
    );
    let mut area = DockArea::new(Some(1));
    assert_eq!(
        StoryWorkspace::reset_default_layout(&mut area, &registry),
        Err(UnknownPanelKey { key: "Input".to_string() })
    );
    assert_eq!(area, DockArea::new(Some(1)));
}

#[test]
fn reset_applies_and_returns_the_default() {
    let registry = story_registry();
    let mut area = DockArea::new(Some(3));
    let snapshot = StoryWorkspace::reset_default_layout(&mut area, &registry).unwrap();
    assert_eq!(snapshot, expected_default());
    assert_eq!(area.version(), Some(5));
    assert_eq!(area.dump(), expected_default());
}

#[test]
fn missing_file_bootstraps_default() {
    let registry = story_registry();
    let (workspace, startup) = StoryWorkspace::new(&registry, None);
    assert!(!startup.prompt);
    assert_eq!(startup.persist, Some(expected_default()));
    assert_eq!(workspace.dock_area().dump(), expected_default());
    assert_eq!(workspace.migration(), MigrationState::ResettingToDefault);
    assert_eq!(workspace.pending_save(), None);
}

#[test]
fn current_layout_is_loaded_as_stored() {
    let registry = story_registry();
    let (workspace, startup) = StoryWorkspace::new(&registry, Some(stored(Some(5))));
    assert!(!startup.prompt);
    assert_eq!(startup.persist, None);
    assert_eq!(workspace.dock_area().dump(), stored(Some(5)));
    assert_eq!(workspace.migration(), MigrationState::Loaded);
}

#[test]
fn version_mismatch_resets_on_yes() {
    let registry = story_registry();
    let (mut workspace, startup) = StoryWorkspace::new(&registry, Some(stored(Some(3))));
    assert!(startup.prompt);
    assert_eq!(startup.persist, None);
    assert_eq!(workspace.migration(), MigrationState::AwaitingConfirmation);
    assert_eq!(workspace.dock_area().dump(), stored(Some(3)));
    let outcome = workspace.on_prompt_answer(&registry, Some(0), 40);
    assert_eq!(outcome.persist, Some(expected_default()));
    assert_eq!(outcome.timer, Some(TimerCommand { cancelled: None, deadline: 50 }));
    assert_eq!(workspace.pending_save(), Some(50));
    assert_eq!(workspace.dock_area().dump(), expected_default());
    assert_eq!(workspace.dock_area().version(), Some(5));
    assert_eq!(workspace.migration(), MigrationState::ResettingToDefault);
    assert_eq!(workspace.on_prompt_answer(&registry, Some(0), 41), nothing());
    assert_eq!(workspace.pending_save(), Some(50));
}

#[test]
fn version_mismatch_keeps_stale_on_no() {
    let registry = story_registry();
    let (mut workspace, startup) = StoryWorkspace::new(&registry, Some(stored(Some(3))));
    assert!(startup.prompt);
    assert_eq!(workspace.on_prompt_answer(&registry, Some(1), 40), nothing());
    assert_eq!(workspace.migration(), MigrationState::KeptStale);
    assert_eq!(workspace.dock_area().dump(), stored(Some(3)));
    assert_eq!(workspace.pending_save(), None);
    assert_eq!(workspace.on_prompt_answer(&registry, Some(0), 41), nothing());
    assert_eq!(workspace.dock_area().dump(), stored(Some(3)));
}

#[test]
fn dismissed_prompt_keeps_stale() {
    let registry = story_registry();
    let (mut workspace, _) = StoryWorkspace::new(&registry, Some(stored(None)));
    assert_eq!(workspace.migration(), MigrationState::AwaitingConfirmation);
    assert_eq!(workspace.on_prompt_answer(&registry, None, 40), nothing());
    assert_eq!(workspace.migration(), MigrationState::KeptStale);
    assert_eq!(workspace.dock_area().version(), None);
}

#[test]
fn stored_layout_that_does_not_load_is_replaced() {
    let registry = story_registry();
    let mut broken = stored(Some(5));
    broken.left = Some(DockState { panels: vec![entry("WebView")], size: None });
    let (workspace, startup) = StoryWorkspace::new(&registry, Some(broken));
    assert!(!startup.prompt);
    assert_eq!(startup.persist, Some(expected_default()));
    assert_eq!(workspace.dock_area().dump(), expected_default());
    assert_eq!(workspace.migration(), MigrationState::ResettingToDefault);
}

#[test]
fn load_layout_reports_prompt_and_result() {
    let registry = story_registry();
    let mut area = DockArea::new(Some(5));
    let report = StoryWorkspace::load_layout(&mut area, &registry, &stored(Some(4)));
    assert!(report.prompt);
    assert_eq!(report.result, Ok(()));
    assert_eq!(area.dump(), stored(Some(4)));
    let mut broken = stored(Some(5));
    broken.root = NodeState::Tabs { panels: vec![entry("Nope")], active_index: 0 };
    let report = StoryWorkspace::load_layout(&mut area, &registry, &broken);
    assert!(!report.prompt);
    assert_eq!(
        report.result,
        Err(LoadError::PanelResolution(UnknownPanelKey { key: "Nope".to_string() }))
    );
    assert_eq!(area.dump(), stored(Some(4)));
}

#[test]
fn migration_steps() {
    assert_eq!(
        MigrationState::on_loaded(Some(5)),
        (MigrationState::Loaded, MigrationAction::Nothing)
    );
    assert_eq!(
        MigrationState::on_loaded(Some(3)),
        (MigrationState::AwaitingConfirmation, MigrationAction::Prompt)
    );
    assert_eq!(
        MigrationState::on_loaded(None),
        (MigrationState::AwaitingConfirmation, MigrationAction::Prompt)
    );
    assert_eq!(
        MigrationState::on_read_failure(),
        (MigrationState::ResettingToDefault, MigrationAction::ResetToDefault)
    );
    assert_eq!(
        MigrationState::AwaitingConfirmation.on_answer(Some(0)),
        (MigrationState::ResettingToDefault, MigrationAction::ResetToDefault)
    );
    assert_eq!(
        MigrationState::AwaitingConfirmation.on_answer(Some(1)),
        (MigrationState::KeptStale, MigrationAction::Nothing)
    );
    assert_eq!(
        MigrationState::AwaitingConfirmation.on_answer(None),
        (MigrationState::KeptStale, MigrationAction::Nothing)
    );
    assert_eq!(
        MigrationState::Loaded.on_answer(Some(0)),
        (MigrationState::Loaded, MigrationAction::Nothing)
    );
    assert_eq!(
        MigrationState::KeptStale.on_answer(Some(0)),
        (MigrationState::KeptStale, MigrationAction::Nothing)
    );
    assert_eq!(
        MigrationState::ResettingToDefault.on_answer(Some(0)),
        (MigrationState::ResettingToDefault, MigrationAction::Nothing)
    );
}

#[test]
fn burst_of_changes_gives_one_write() {
    let mut scheduler = SaveScheduler::new();
    assert_eq!(SAVE_DELAY_SECS, 10);
    assert_eq!(
        scheduler.on_layout_changed(100),
        TimerCommand { cancelled: None, deadline: 110 }
    );
    assert_eq!(
        scheduler.on_layout_changed(104),
        TimerCommand { cancelled: Some(110), deadline: 114 }
    );
    assert_eq!(
        scheduler.on_layout_changed(109),
        TimerCommand { cancelled: Some(114), deadline: 119 }
    );
    assert_eq!(scheduler.pending_deadline(), Some(119));
    assert!(!scheduler.is_due(110));
    assert_eq!(scheduler.on_timer_expired(110, stored(Some(5))), SaveDecision::NotDue);
    assert_eq!(scheduler.on_timer_expired(118, stored(Some(5))), SaveDecision::NotDue);
    assert!(scheduler.is_due(119));
    assert_eq!(
        scheduler.on_timer_expired(119, stored(Some(5))),
        SaveDecision::Write(stored(Some(5)))
    );
    assert_eq!(scheduler.pending_deadline(), None);
    assert_eq!(scheduler.on_timer_expired(130, stored(Some(5))), SaveDecision::NotDue);
}

#[test]
fn unchanged_snapshot_is_written_once() {
    let mut scheduler = SaveScheduler::new();
    scheduler.on_layout_changed(0);
    match scheduler.on_timer_expired(10, stored(Some(5))) {
        SaveDecision::Write(snapshot) => scheduler.record_saved(snapshot),
        other => panic!("a write was due, not {:?}", other),
    }
    assert_eq!(scheduler.last_saved(), &Some(stored(Some(5))));
    scheduler.on_layout_changed(20);
    assert_eq!(scheduler.on_timer_expired(30, stored(Some(5))), SaveDecision::Skip);
    assert_eq!(scheduler.last_saved(), &Some(stored(Some(5))));
    scheduler.on_layout_changed(40);
    assert_eq!(
        scheduler.on_timer_expired(50, stored(Some(6))),
        SaveDecision::Write(stored(Some(6)))
    );
}

#[test]
fn failed_write_is_tried_again_on_the_next_change() {
    let mut scheduler = SaveScheduler::new();
    scheduler.on_layout_changed(0);
    assert_eq!(
        scheduler.on_timer_expired(10, stored(Some(5))),
        SaveDecision::Write(stored(Some(5)))
    );
    assert_eq!(scheduler.last_saved(), &None);
    scheduler.on_layout_changed(11);
    assert_eq!(
        scheduler.on_timer_expired(21, stored(Some(5))),
        SaveDecision::Write(stored(Some(5)))
    );
}

#[test]
fn deadline_stops_at_the_largest_time() {
    let mut scheduler = SaveScheduler::new();
    assert_eq!(scheduler.on_layout_changed(u64::MAX - 3).deadline, u64::MAX);
    assert_eq!(scheduler.on_layout_changed(u64::MAX - 10).deadline, u64::MAX);
    assert_eq!(scheduler.on_layout_changed(u64::MAX - 11).deadline, u64::MAX - 1);
}

#[test]
fn flush_writes_whatever_was_saved() {
    let mut scheduler = SaveScheduler::new();
    scheduler.record_saved(stored(Some(5)));
    scheduler.on_layout_changed(7);
    assert_eq!(scheduler.flush(stored(Some(5))), stored(Some(5)));
    assert_eq!(scheduler.pending_deadline(), None);
}

#[test]
fn workspace_debounces_its_saves() {
    let registry = story_registry();
    let (mut workspace, startup) = StoryWorkspace::new(&registry, None);
    assert!(startup.persist.is_some());
    let tabs = DockNode::tabs(vec![], None).unwrap();
    assert_eq!(
        workspace.set_root(tabs, 50),
        TimerCommand { cancelled: None, deadline: 60 }
    );
    assert_eq!(workspace.save_layout(55), TimerCommand { cancelled: Some(60), deadline: 65 });
    assert_eq!(workspace.pending_save(), Some(65));
    assert_eq!(workspace.on_save_timer(60), SaveDecision::NotDue);
    let mut expected = expected_default();
    expected.root = NodeState::Tabs { panels: vec![], active_index: 0 };
    match workspace.on_save_timer(65) {
        SaveDecision::Write(snapshot) => {
            assert_eq!(snapshot, expected);
            workspace.record_saved(snapshot);
        }
        other => panic!("a write was due, not {:?}", other),
    }
    workspace.save_layout(70);
    assert_eq!(workspace.on_save_timer(80), SaveDecision::Skip);
    workspace.save_layout(90);
    assert_eq!(workspace.on_quit(), expected);
    assert_eq!(workspace.pending_save(), None);
}

#[test]
fn stale_layout_drops_unknown_panels() {
    let registry = story_registry();
    let mut old = stored(Some(3));
    old.root = NodeState::Split {
        axis: Axis::Horizontal,
        items: vec![
            NodeState::Tabs {
                panels: vec![entry("WebView"), entry("Text"), entry("Gone")],
                active_index: 2,
            },
            NodeState::Tabs { panels: vec![entry("Text"), entry("Modal")], active_index: 1 },
        ],
        sizes: vec![Some(40), None],
    };
    old.left = Some(DockState { panels: vec![entry("Lost")], size: Some(9) });
    let (mut workspace, startup) = StoryWorkspace::new(&registry, Some(old));
    assert!(startup.prompt);
    assert_eq!(startup.persist, None);
    let kept = LayoutState {
        version: Some(3),
        root: NodeState::Split {
            axis: Axis::Horizontal,
            items: vec![
                NodeState::Tabs { panels: vec![entry("Text")], active_index: 0 },
                NodeState::Tabs { panels: vec![entry("Text"), entry("Modal")], active_index: 1 },
            ],
            sizes: vec![Some(40), None],
        },
        left: Some(DockState { panels: vec![], size: Some(9) }),
        right: Some(DockState { panels: vec![entry("Icon")], size: Some(100) }),
        bottom: None,
    };
    assert_eq!(workspace.dock_area().dump(), kept);
    assert_eq!(workspace.on_prompt_answer(&registry, Some(1), 40), nothing());
    assert_eq!(workspace.migration(), MigrationState::KeptStale);
    assert_eq!(workspace.dock_area().dump(), kept);
}

#[test]
fn pruning_keeps_known_panels_in_order() {
    let registry = story_registry();
    let state = LayoutState {
        version: Some(5),
        root: NodeState::Tabs {
            panels: vec![entry("Icon"), entry("Nope"), entry("Image"), entry("Icon")],
            active_index: 2,
        },
        left: None,
        right: None,
        bottom: Some(DockState { panels: vec![entry("Nope"), entry("List")], size: None }),
    };
    let pruned = state.prune_unknown(&registry);
    assert_eq!(
        pruned,
        LayoutState {
            version: Some(5),
            root: NodeState::Tabs {
                panels: vec![entry("Icon"), entry("Image"), entry("Icon")],
                active_index: 2,
            },
            left: None,
            right: None,
            bottom: Some(DockState { panels: vec![entry("List")], size: None }),
        }
    );
    assert_eq!(stored(Some(5)).prune_unknown(&registry), stored(Some(5)));
}

#[test]
fn reset_prompt_offers_yes_then_no() {
    let request = reset_prompt();
    assert_eq!(request.level, PromptLevel::Info);
    assert_eq!(
        request.message,
        "The default main layout has been updated.\nDo you want to reset the layout to default?"
    );
    assert_eq!(request.options, vec!["Yes".to_string(), "No".to_string()]);
    assert_eq!(request.options[RESET_OPTION], "Yes");
}

#[test]
fn reset_on_yes_replaces_the_pending_save() {
    let registry = story_registry();
    let (mut workspace, _) = StoryWorkspace::new(&registry, Some(stored(Some(3))));
    assert_eq!(workspace.save_layout(100), TimerCommand { cancelled: None, deadline: 110 });
    let outcome = workspace.on_prompt_answer(&registry, Some(0), 105);
    assert_eq!(outcome.timer, Some(TimerCommand { cancelled: Some(110), deadline: 115 }));
    assert_eq!(outcome.persist, Some(expected_default()));
    assert_eq!(workspace.on_save_timer(110), SaveDecision::NotDue);
    assert_eq!(workspace.on_save_timer(115), SaveDecision::Write(expected_default()));
}

#[test]
fn yes_without_the_default_panels_changes_nothing() {
    let mut registry = PanelRegistry::new();
    registry.register("Text".to_string(), 3);
    registry.register("Modal".to_string(), 4);
    registry.register("Icon".to_string(), 10);
    let (mut workspace, startup) = StoryWorkspace::new(&registry, Some(stored(Some(3))));
    assert!(startup.prompt);
    assert_eq!(workspace.on_prompt_answer(&registry, Some(0), 7), nothing());
    assert_eq!(workspace.migration(), MigrationState::ResettingToDefault);
    assert_eq!(workspace.dock_area().dump(), stored(Some(3)));
    assert_eq!(workspace.pending_save(), None);
}

#[test]
fn stale_layout_with_known_panels_is_live_as_stored() {
    let registry = story_registry();
    let old = LayoutState {
        version: Some(3),
        root: NodeState::Split {
            axis: Axis::Horizontal,
            items: vec![
                NodeState::Tabs { panels: vec![], active_index: 3 },
                NodeState::Tabs { panels: vec![entry("Text"), entry("Modal")], active_index: 1 },
            ],
            sizes: vec![Some(40), None],
        },
        left: Some(DockState { panels: vec![], size: None }),
        right: None,
        bottom: Some(DockState { panels: vec![entry("Icon")], size: Some(9) }),
    };
    let same = old.prune_unknown(&registry);
    assert_eq!(same, old);
    let (workspace, startup) = StoryWorkspace::new(&registry, Some(old));
    assert!(startup.prompt);
    assert_eq!(startup.persist, None);
    assert_eq!(workspace.dock_area().dump(), same);
    let empty_root = LayoutState {
        version: Some(3),
        root: NodeState::Tabs { panels: vec![], active_index: 3 },
        left: None,
        right: None,
        bottom: None,
    };
    let mut area = DockArea::new(Some(5));
    let report = StoryWorkspace::load_layout(&mut area, &registry, &empty_root);
    assert!(report.prompt);
    assert_eq!(report.result, Ok(()));
    assert_eq!(area.dump(), empty_root);
}

#[test]
fn pruning_moves_the_active_tab_only_where_it_must() {
    let registry = story_registry();
    let group = |panels: Vec<PanelState>, active_index: usize| LayoutState {
        version: Some(3),
        root: NodeState::Tabs { panels, active_index },
        left: None,
        right: None,
        bottom: None,
    };
    let lost_active = group(vec![entry("Text"), entry("Gone"), entry("Lost")], 2);
    assert_eq!(lost_active.prune_unknown(&registry), group(vec![entry("Text")], 0));
    let still_there = group(vec![entry("Gone"), entry("Text"), entry("Icon")], 1);
    assert_eq!(
        still_there.prune_unknown(&registry),
        group(vec![entry("Text"), entry("Icon")], 1)
    );
    let all_lost = group(vec![entry("Gone"), entry("Lost")], 1);
    assert_eq!(all_lost.prune_unknown(&registry), group(vec![], 1));
    let untouched = group(vec![entry("Text")], 4);
    assert_eq!(untouched.prune_unknown(&registry), group(vec![entry("Text")], 4));
}

#[test]
fn workspace_dock_setters_schedule_a_save() {
    let registry = story_registry();
    let (mut workspace, _) = StoryWorkspace::new(&registry, None);
    let list = registry.create(&"List".to_string(), &String::new()).unwrap();
    let icon = registry.create(&"Icon".to_string(), &String::new()).unwrap();
    let text = registry.create(&"Text".to_string(), &String::new()).unwrap();
    assert_eq!(
        workspace.set_left_dock(vec![text], Some(10), 5),
        TimerCommand { cancelled: None, deadline: 15 }
    );
    assert_eq!(
        workspace.set_right_dock(vec![list], None, 6),
        TimerCommand { cancelled: Some(15), deadline: 16 }
    );
    assert_eq!(
        workspace.set_bottom_dock(vec![icon], Some(30), 9),
        TimerCommand { cancelled: Some(16), deadline: 19 }
    );
    let mut expected = expected_default();
    expected.left = Some(DockState { panels: vec![entry("Text")], size: Some(10) });
    expected.right = Some(DockState { panels: vec![entry("List")], size: None });
    expected.bottom = Some(DockState { panels: vec![entry("Icon")], size: Some(30) });
    assert_eq!(workspace.on_save_timer(18), SaveDecision::NotDue);
    assert_eq!(workspace.on_save_timer(19), SaveDecision::Write(expected));
}
