use screeps_timing_annotate::ast::{Attr, SelfType};
use screeps_timing_annotate::naming::{has_marker, is_marker_attr, join_components, render_path};
use screeps_timing_annotate::Timing;

fn path(segments: &[&str]) -> Vec<String> {
    segments.iter().map(|p| p.to_string()).collect()
}

#[test]
fn name_joins_the_stack_with_double_colons() {
    let t = Timing { id_stack: path(&["a", "b", "c"]) };
    assert_eq!(t.name(), "a::b::c");
}

#[test]
fn name_of_the_empty_stack_is_empty() {
    let t = Timing { id_stack: vec![] };
    assert_eq!(t.name(), "");
}

#[test]
fn push_and_pop_restore_the_stack() {
    let mut t = Timing { id_stack: path(&["seed"]) };
    t.push("x".to_string());
    assert_eq!(t.name(), "seed::x");
    t.pop();
    assert_eq!(t.name(), "seed");
    t.pop();
    assert_eq!(t.name(), "");
    t.pop();
    assert_eq!(t.name(), "");
}

#[test]
fn join_components_single_component() {
    assert_eq!(join_components(&path(&["alone"])), "alone");
}

#[test]
fn marker_attributes_are_recognized_exactly() {
    assert!(is_marker_attr(&Attr { path: path(&["timing"]), rest: 0 }));
    assert!(is_marker_attr(&Attr { path: path(&["notiming"]), rest: 0 }));
    assert!(is_marker_attr(&Attr { path: path(&["screeps_timing_annotate", "timing"]), rest: 0 }));
    assert!(
        is_marker_attr(&Attr { path: path(&["screeps_timing_annotate", "notiming"]), rest: 0 })
    );
    assert!(!is_marker_attr(&Attr { path: path(&["timings"]), rest: 0 }));
    assert!(!is_marker_attr(&Attr { path: path(&["elsewhere", "notiming"]), rest: 0 }));
    assert!(!is_marker_attr(&Attr { path: path(&[]), rest: 0 }));
}

#[test]
fn has_marker_scans_the_whole_list() {
    let attrs = vec![
        Attr { path: path(&["derive"]), rest: 0 },
        Attr { path: path(&["notiming"]), rest: 0 },
    ];
    assert!(has_marker(&attrs));
    let plain = vec![Attr { path: path(&["derive"]), rest: 0 }];
    assert!(!has_marker(&plain));
    assert!(!has_marker(&vec![]));
}

#[test]
fn render_path_joins_path_shaped_types_only() {
    assert_eq!(render_path(&SelfType::Path(path(&["a", "B"]))), Some("a::B".to_string()));
    assert_eq!(render_path(&SelfType::Opaque(7)), None);
}
