use litsdf::actions::{apply_editor_action, EditorAction, EditorState};
use litsdf::bone::SdfBone;
use litsdf::ids::BoneId;
use litsdf::scene::SdfScene;
use litsdf::shape::{SdfPrimitive, SdfShape};
use litsdf::undo::UndoHistory;

fn state_with_arm() -> (EditorState, BoneId) {
    let mut scene = SdfScene::new("test");
    scene.root_bone.shapes.push(SdfShape::default_sphere());
    let mut arm = SdfBone::new("Arm");
    arm.shapes.push(SdfShape::new("Box", SdfPrimitive::Box { half_extents: [0.5f32.to_bits(); 3] }));
    arm.children.push(SdfBone::new("Hand"));
    let arm_id = arm.id;
    scene.root_bone.children.push(arm);
    (EditorState { scene, selected_bone: None, selected_shape: None, dirty: false }, arm_id)
}

#[test]
fn add_shape_then_undo_restores_scene() {
    let (mut st, arm_id) = state_with_arm();
    let mut h = UndoHistory::default();
    assert!(apply_editor_action(&mut st, &mut h, EditorAction::SelectBone(arm_id)));
    assert_eq!(h.undo_len(), 0, "selection alone records nothing");
    assert!(apply_editor_action(&mut st, &mut h, EditorAction::AddShape(5)));
    assert_eq!(st.scene.root_bone.children[0].shapes.len(), 2);
    assert_eq!(st.scene.root_bone.children[0].shapes[1].name, "Torus");
    assert_eq!(st.selected_shape, Some(st.scene.root_bone.children[0].shapes[1].id));
    assert!(st.dirty);
    assert_eq!(h.undo_len(), 1);
    assert!(apply_editor_action(&mut st, &mut h, EditorAction::Undo));
    assert_eq!(st.scene.root_bone.children[0].shapes.len(), 1);
    assert_eq!(st.selected_bone, None);
    assert_eq!(st.selected_shape, None);
}

#[test]
fn duplicate_and_delete_selected_bone() {
    let (mut st, arm_id) = state_with_arm();
    let mut h = UndoHistory::default();
    apply_editor_action(&mut st, &mut h, EditorAction::SelectBone(arm_id));
    assert!(apply_editor_action(&mut st, &mut h, EditorAction::Duplicate));
    assert_eq!(st.scene.root_bone.children.len(), 2);
    let copy = &st.scene.root_bone.children[1];
    assert_eq!(copy.name, "Arm Copy");
    assert_eq!(copy.children[0].name, "Hand");
    assert_ne!(copy.id, arm_id);
    assert_eq!(st.selected_bone, Some(copy.id));
    assert!(apply_editor_action(&mut st, &mut h, EditorAction::Delete));
    // The deleted copy's child moves up to the root.
    assert_eq!(st.scene.root_bone.children.len(), 2);
    assert_eq!(st.scene.root_bone.children[1].name, "Hand");
    assert_eq!(st.selected_bone, None);
    // Deleting the root does nothing.
    apply_editor_action(&mut st, &mut h, EditorAction::SelectBone(BoneId(0)));
    assert!(!apply_editor_action(&mut st, &mut h, EditorAction::Delete));
    assert_eq!(st.scene.root_bone.children.len(), 2);
}

#[test]
fn hide_and_show_all() {
    let (mut st, arm_id) = state_with_arm();
    let mut h = UndoHistory::default();
    let box_id = st.scene.root_bone.children[0].shapes[0].id;
    apply_editor_action(&mut st, &mut h, EditorAction::SelectShape(box_id, arm_id));
    assert_eq!(st.selected_bone, Some(arm_id));
    assert!(!apply_editor_action(&mut st, &mut h, EditorAction::HideSelected));
    assert!(!st.scene.root_bone.children[0].shapes[0].visible);
    apply_editor_action(&mut st, &mut h, EditorAction::ToggleBoneVisibility(arm_id));
    assert!(!st.scene.root_bone.children[0].visible);
    assert_eq!(h.undo_len(), 2);
    apply_editor_action(&mut st, &mut h, EditorAction::ShowAll);
    assert!(st.scene.root_bone.children[0].visible);
    assert!(st.scene.root_bone.children[0].shapes[0].visible);
    assert_eq!(h.undo_len(), 3);
    // Everything already visible: the scene is unchanged and nothing is recorded.
    apply_editor_action(&mut st, &mut h, EditorAction::ShowAll);
    assert_eq!(h.undo_len(), 3);
}

#[test]
fn context_menu_actions() {
    let (mut st, arm_id) = state_with_arm();
    let mut h = UndoHistory::default();
    let hand_id = st.scene.root_bone.children[0].children[0].id;
    apply_editor_action(&mut st, &mut h, EditorAction::AddChildBone(hand_id));
    assert_eq!(st.scene.root_bone.children[0].children[0].children[0].name, "Bone");
    apply_editor_action(&mut st, &mut h, EditorAction::AddShapeToBone(hand_id, 1));
    assert_eq!(st.scene.root_bone.children[0].children[0].shapes[0].name, "Box");
    apply_editor_action(&mut st, &mut h, EditorAction::RenameBone(hand_id, String::new()));
    assert_eq!(st.scene.root_bone.children[0].children[0].name, "Hand");
    apply_editor_action(&mut st, &mut h, EditorAction::RenameBone(hand_id, "Palm".to_string()));
    assert_eq!(st.scene.root_bone.children[0].children[0].name, "Palm");
    assert!(apply_editor_action(&mut st, &mut h, EditorAction::ReparentBone { bone: hand_id, new_parent: BoneId(0) }));
    assert_eq!(st.scene.root_bone.children.len(), 2);
    assert!(!apply_editor_action(&mut st, &mut h, EditorAction::ReparentBone { bone: arm_id, new_parent: arm_id }));
    assert!(apply_editor_action(&mut st, &mut h, EditorAction::DeleteBoneRecursive(hand_id)));
    assert_eq!(st.scene.root_bone.children.len(), 1);
    assert_eq!(st.scene.root_bone.shape_count(), 2);
}

#[test]
fn new_scene_and_deselect() {
    let (mut st, arm_id) = state_with_arm();
    let mut h = UndoHistory::default();
    apply_editor_action(&mut st, &mut h, EditorAction::SelectBone(arm_id));
    assert!(apply_editor_action(&mut st, &mut h, EditorAction::Deselect));
    assert_eq!(st.selected_bone, None);
    assert!(apply_editor_action(&mut st, &mut h, EditorAction::NewScene));
    assert_eq!(st.scene.name, "Untitled");
    assert_eq!(st.scene.root_bone.children.len(), 0);
    assert_eq!(h.undo_len(), 1);
    apply_editor_action(&mut st, &mut h, EditorAction::ConfirmAddShape(0));
    assert_eq!(st.scene.root_bone.shapes.len(), 1);
    apply_editor_action(&mut st, &mut h, EditorAction::PanelDeleteShape);
    assert!(st.scene.root_bone.shapes.is_empty());
}
