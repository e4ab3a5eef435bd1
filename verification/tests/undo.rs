use litsdf::bone::SdfBone;
use litsdf::scene::{SceneSettings, SdfScene};
use litsdf::shape::{CombinationOp, SdfPrimitive, SdfShape};
use litsdf::undo::{UndoHistory, MAX_UNDO};

fn make_scene(n_shapes: usize) -> SdfScene {
    let mut root = SdfBone::root();
    for i in 0..n_shapes {
        root.shapes.push(SdfShape::new(&format!("Shape{i}"), SdfPrimitive::Sphere { radius: 1.0f32.to_bits() }));
    }
    SdfScene {
        name: "test".to_string(),
        root_bone: root,
        combination: CombinationOp::Union,
        light_dir: [0.6f32.to_bits(), 0.8f32.to_bits(), 0.4f32.to_bits()],
        settings: SceneSettings::default(),
    }
}

#[test]
fn undo_single_mutation() {
    let mut history = UndoHistory::default();
    let scene1 = make_scene(1);
    let scene2 = make_scene(2);
    history.push(scene1.copy());
    let restored = history.undo(&scene2).unwrap();
    assert_eq!(restored.root_bone.shapes.len(), 1);
}

#[test]
fn undo_redo_cycle() {
    let mut history = UndoHistory::default();
    let scene1 = make_scene(1);
    let scene2 = make_scene(2);
    history.push(scene1.copy());
    let restored = history.undo(&scene2).unwrap();
    assert_eq!(restored.root_bone.shapes.len(), 1);
    let redone = history.redo(&restored).unwrap();
    assert_eq!(redone.root_bone.shapes.len(), 2);
}

#[test]
fn undo_stack_limit() {
    let mut history = UndoHistory::default();
    for i in 0..60 {
        history.push(make_scene(i));
    }
    assert_eq!(history.undo_len(), MAX_UNDO);
}

#[test]
fn redo_cleared_on_new_mutation() {
    let mut history = UndoHistory::default();
    let scene1 = make_scene(1);
    let scene2 = make_scene(2);
    let scene3 = make_scene(3);
    history.push(scene1.copy());
    let _restored = history.undo(&scene2).unwrap();
    assert_eq!(history.redo_len(), 1);
    history.push(scene3);
    assert_eq!(history.redo_len(), 0);
}

#[test]
fn nothing_to_undo_or_redo() {
    let mut history = UndoHistory::default();
    let scene = make_scene(1);
    assert!(history.undo(&scene).is_none());
    assert!(history.redo(&scene).is_none());
    assert_eq!(history.undo_len(), 0);
}

#[test]
fn oldest_snapshot_is_dropped() {
    let mut history = UndoHistory::default();
    for i in 0..(MAX_UNDO + 1) {
        history.push(make_scene(i));
    }
    let mut last = make_scene(0);
    for _ in 0..MAX_UNDO {
        last = history.undo(&last).unwrap();
    }
    assert_eq!(last.root_bone.shapes.len(), 1);
    assert!(history.undo(&last).is_none());
}
