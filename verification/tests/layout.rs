use dock_layout::area::{AuxDock, DockArea, DockEvent, LoadError};
use dock_layout::node::{Axis, DockNode, NodeError};
use dock_layout::panel::{PanelRef, PanelRegistry, UnknownPanelKey};
use dock_layout::state::{
    same_panels, same_sizes, DockState, LayoutState, NodeState, PanelState,
};

const KEYS: [&str; 17] = [
    "Button", "Input", "Dropdown", "Text", "Modal", "Popup", "Switch", "Progress", "Table",
    "Image", "Icon", "Tooltip", "Calendar", "Resizable", "Scrollable", "Accordion", "List",
];

fn full_registry() -> PanelRegistry {
    let mut registry = PanelRegistry::new();
    for (i, key) in KEYS.iter().enumerate() {
        registry.register(key.to_string(), i as u64);
    }
    registry
}

fn panel(registry: &PanelRegistry, key: &str, params: &str) -> PanelRef {
    registry.create(&key.to_string(), &params.to_string()).unwrap()
}

fn record(key: &str, params: &str) -> PanelState {
    PanelState { panel_key: key.to_string(), params: params.to_string() }
}

fn sample_area(registry: &PanelRegistry) -> DockArea {
    let first = DockNode::tabs(
        vec![panel(registry, "Button", ""), panel(registry, "Input", "wide")],
        Some(1),
    )
    .unwrap();
    let second = DockNode::tabs(vec![panel(registry, "Table", "rows=3")], None).unwrap();
    let inner = DockNode::split(Axis::Vertical, vec![second]);
    let root =
        DockNode::split_with_sizes(Axis::Horizontal, vec![first, inner], vec![Some(300), None])
            .unwrap();
    let mut area = DockArea::new(Some(5));
    assert_eq!(area.set_root(root), DockEvent::LayoutChanged);
    assert_eq!(
        area.set_left_dock(vec![panel(registry, "List", "")], Some(350)),
        DockEvent::LayoutChanged
    );
    assert_eq!(
        area.set_bottom_dock(
            vec![panel(registry, "Tooltip", ""), panel(registry, "Icon", "")],
            None
        ),
        DockEvent::LayoutChanged
    );
    area
}

fn sample_state() -> LayoutState {
    LayoutState {
        version: Some(5),
        root: NodeState::Split {
            axis: Axis::Horizontal,
            items: vec![
                NodeState::Tabs {
                    panels: vec![record("Button", ""), record("Input", "wide")],
                    active_index: 1,
                },
                NodeState::Split {
                    axis: Axis::Vertical,
                    items: vec![NodeState::Tabs {
                        panels: vec![record("Table", "rows=3")],
                        active_index: 0,
                    }],
                    sizes: vec![None],
                },
            ],
            sizes: vec![Some(300), None],
        },
        left: Some(DockState { panels: vec![record("List", "")], size: Some(350) }),
        right: None,
        bottom: Some(DockState {
            panels: vec![record("Tooltip", ""), record("Icon", "")],
            size: None,
        }),
    }
}

#[test]
fn registry_creates_registered_panels() {
    let registry = full_registry();
    let made = registry.create(&"Table".to_string(), &"rows=3".to_string());
    assert_eq!(
        made,
        Ok(PanelRef { key: "Table".to_string(), params: "rows=3".to_string(), factory: 8 })
    );
    assert_eq!(registry.lookup(&"List".to_string()), Some(16));
}

#[test]
fn registry_reports_unknown_key() {
    let registry = full_registry();
    let made = registry.create(&"WebView".to_string(), &String::new());
    assert_eq!(made, Err(UnknownPanelKey { key: "WebView".to_string() }));
    assert_eq!(registry.lookup(&"WebView".to_string()), None);
    assert_eq!(PanelRegistry::new().lookup(&"Button".to_string()), None);
}

#[test]
fn registering_again_overwrites() {
    let mut registry = full_registry();
    registry.register("Button".to_string(), 99);
    assert_eq!(registry.lookup(&"Button".to_string()), Some(99));
    assert_eq!(registry.lookup(&"Input".to_string()), Some(1));
}

#[test]
fn panel_copies_are_the_same() {
    let registry = full_registry();
    let one = panel(&registry, "Icon", "x");
    let copy = one.duplicate();
    assert!(one.same(&copy));
    assert_eq!(one, copy);
    assert!(!one.same(&panel(&registry, "Icon", "y")));
    assert!(!one.same(&panel(&registry, "Image", "x")));
}

#[test]
fn split_with_mismatched_sizes_is_rejected() {
    let registry = full_registry();
    let child = DockNode::tabs(vec![panel(&registry, "Button", "")], None).unwrap();
    let made = DockNode::split_with_sizes(Axis::Vertical, vec![child], vec![None, Some(10)]);
    assert_eq!(made, Err(NodeError::SizeCountMismatch));
    let none = DockNode::split_with_sizes(Axis::Vertical, vec![], vec![Some(1)]);
    assert_eq!(none, Err(NodeError::SizeCountMismatch));
}

#[test]
fn split_with_matching_sizes_is_built() {
    let registry = full_registry();
    let child = DockNode::tabs(vec![panel(&registry, "Button", "")], None).unwrap();
    let made = DockNode::split_with_sizes(Axis::Vertical, vec![child], vec![Some(10)]).unwrap();
    assert!(made.is_valid());
    assert_eq!(
        made,
        DockNode::Split {
            axis: Axis::Vertical,
            children: vec![DockNode::Tabs {
                panels: vec![panel(&registry, "Button", "")],
                active_index: 0
            }],
            sizes: vec![Some(10)],
        }
    );
}

#[test]
fn split_without_sizes_fixes_none() {
    let a = DockNode::tabs(vec![], None).unwrap();
    let b = DockNode::tabs(vec![], None).unwrap();
    match DockNode::split(Axis::Horizontal, vec![a, b]) {
        DockNode::Split { axis, children, sizes } => {
            assert_eq!(axis, Axis::Horizontal);
            assert_eq!(children.len(), 2);
            assert_eq!(sizes, vec![None, None]);
        }
        DockNode::Tabs { .. } => panic!("a split was asked for"),
    }
}

#[test]
fn tabs_reject_an_active_tab_they_do_not_have() {
    let registry = full_registry();
    let made = DockNode::tabs(vec![panel(&registry, "Button", "")], Some(1));
    assert_eq!(made, Err(NodeError::ActiveIndexOutOfRange));
    let fine = DockNode::tabs(vec![panel(&registry, "Button", "")], Some(0));
    assert!(fine.is_ok());
    let empty = DockNode::tabs(vec![], Some(4));
    assert_eq!(empty, Ok(DockNode::Tabs { panels: vec![], active_index: 4 }));
}

#[test]
fn validator_catches_a_broken_tree() {
    let broken = DockNode::Split {
        axis: Axis::Vertical,
        children: vec![DockNode::Tabs { panels: vec![], active_index: 0 }],
        sizes: vec![],
    };
    assert!(!broken.is_valid());
    let nested = DockNode::Split {
        axis: Axis::Horizontal,
        children: vec![broken],
        sizes: vec![None],
    };
    assert!(!nested.is_valid());
    let registry = full_registry();
    let bad_tab =
        DockNode::Tabs { panels: vec![panel(&registry, "Button", "")], active_index: 1 };
    assert!(!bad_tab.is_valid());
    assert!(sample_area(&registry).root().is_valid());
}

#[test]
fn dump_records_the_whole_area() {
    let registry = full_registry();
    let area = sample_area(&registry);
    let state = area.dump();
    assert_eq!(state, sample_state());
    assert!(state.same(&sample_state()));
}

#[test]
fn load_of_dump_reproduces_the_area() {
    let registry = full_registry();
    let area = sample_area(&registry);
    let state = area.dump();
    let mut other = DockArea::new(None);
    assert_eq!(other.load(&registry, &state), Ok(()));
    assert_eq!(other, area);
    assert_eq!(other.version(), Some(5));
    assert_eq!(other.dump(), state);
}

#[test]
fn load_resolves_factories_through_the_registry() {
    let registry = full_registry();
    let mut area = DockArea::new(None);
    assert_eq!(area.load(&registry, &sample_state()), Ok(()));
    assert_eq!(
        area.left_dock(),
        &Some(AuxDock {
            panels: vec![PanelRef { key: "List".to_string(), params: String::new(), factory: 16 }],
            size: Some(350),
        })
    );
    assert_eq!(area.right_dock(), &None);
    match area.bottom_dock() {
        Some(dock) => {
            assert_eq!(dock.panels.len(), 2);
            assert_eq!(dock.panels[0].factory, 11);
            assert_eq!(dock.panels[1].factory, 10);
        }
        None => panic!("the bottom dock was recorded"),
    }
}

#[test]
fn unknown_panel_fails_the_whole_load() {
    let registry = full_registry();
    let mut area = sample_area(&registry);
    let before = area.dump();
    let mut state = sample_state();
    state.right = Some(DockState { panels: vec![record("WebView", "")], size: Some(1) });
    let result = area.load(&registry, &state);
    assert_eq!(
        result,
        Err(LoadError::PanelResolution(UnknownPanelKey { key: "WebView".to_string() }))
    );
    assert_eq!(area, sample_area(&registry));
    assert_eq!(area.dump(), before);
}

#[test]
fn first_unknown_panel_is_reported() {
    let registry = full_registry();
    let mut area = DockArea::new(Some(5));
    let state = LayoutState {
        version: Some(5),
        root: NodeState::Split {
            axis: Axis::Vertical,
            items: vec![
                NodeState::Tabs {
                    panels: vec![record("Button", ""), record("Gone", "")],
                    active_index: 0,
                },
                NodeState::Tabs { panels: vec![record("Missing", "")], active_index: 0 },
            ],
            sizes: vec![None, None],
        },
        left: Some(DockState { panels: vec![record("Lost", "")], size: None }),
        right: None,
        bottom: None,
    };
    assert_eq!(
        area.load(&registry, &state),
        Err(LoadError::PanelResolution(UnknownPanelKey { key: "Gone".to_string() }))
    );
    assert_eq!(area, DockArea::new(Some(5)));
}

#[test]
fn malformed_snapshot_is_not_loaded() {
    let registry = full_registry();
    let mut area = sample_area(&registry);
    let state = LayoutState {
        version: Some(5),
        root: NodeState::Split {
            axis: Axis::Vertical,
            items: vec![NodeState::Tabs { panels: vec![record("Button", "")], active_index: 0 }],
            sizes: vec![None, Some(3)],
        },
        left: None,
        right: None,
        bottom: None,
    };
    assert_eq!(area.load(&registry, &state), Err(LoadError::InvalidStructure));
    assert_eq!(area, sample_area(&registry));
    let bad_tab = LayoutState {
        version: Some(5),
        root: NodeState::Tabs { panels: vec![record("Button", "")], active_index: 3 },
        left: None,
        right: None,
        bottom: None,
    };
    assert_eq!(area.load(&registry, &bad_tab), Err(LoadError::InvalidStructure));
}

#[test]
fn setters_replace_one_part_each() {
    let registry = full_registry();
    let mut area = sample_area(&registry);
    area.set_version(9);
    assert_eq!(area.version(), Some(9));
    area.set_right_dock(vec![panel(&registry, "Image", "")], Some(320));
    let state = area.dump();
    let mut expected = sample_state();
    expected.version = Some(9);
    expected.right = Some(DockState { panels: vec![record("Image", "")], size: Some(320) });
    assert_eq!(state, expected);
}

#[test]
fn new_area_is_empty() {
    let area = DockArea::new(Some(2));
    assert_eq!(
        area.dump(),
        LayoutState {
            version: Some(2),
            root: NodeState::Tabs { panels: vec![], active_index: 0 },
            left: None,
            right: None,
            bottom: None,
        }
    );
}

#[test]
fn snapshots_compare_structurally() {
    let base = sample_state();
    let mut other = sample_state();
    assert!(base.same(&other));
    other.version = Some(4);
    assert!(!base.same(&other));
    let mut moved = sample_state();
    moved.bottom = None;
    assert!(!base.same(&moved));
    let mut resized = sample_state();
    if let NodeState::Split { sizes, .. } = &mut resized.root {
        sizes[0] = Some(301);
    }
    assert!(!base.same(&resized));
    let mut retabbed = sample_state();
    if let NodeState::Split { items, .. } = &mut retabbed.root {
        if let NodeState::Tabs { active_index, .. } = &mut items[0] {
            *active_index = 0;
        }
    }
    assert!(!base.same(&retabbed));
    let mut renamed = sample_state();
    if let NodeState::Split { items, .. } = &mut renamed.root {
        if let NodeState::Tabs { panels, .. } = &mut items[0] {
            panels[1].params = "narrow".to_string();
        }
    }
    assert!(!base.same(&renamed));
    assert!(!base.root.same(&NodeState::Tabs { panels: vec![], active_index: 0 }));
}

#[test]
fn lists_compare_element_by_element() {
    assert!(same_sizes(&vec![Some(1), None], &vec![Some(1), None]));
    assert!(!same_sizes(&vec![Some(1), None], &vec![Some(1), Some(0)]));
    assert!(!same_sizes(&vec![Some(1)], &vec![Some(1), None]));
    assert!(same_panels(&vec![record("a", "b")], &vec![record("a", "b")]));
    assert!(!same_panels(&vec![record("a", "b")], &vec![record("a", "c")]));
    assert!(!same_panels(&vec![record("a", "b")], &vec![]));
}
