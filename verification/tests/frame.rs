//! Tests of the frame operation plan: the order a frame records its work
//! in, and the texture-delta scenarios.

use gpu_frame::backend::TexId;
use gpu_frame::renderer::{plan_frame, FrameOp};

fn positions(plan: &[FrameOp], op: FrameOp) -> Vec<usize> {
    plan.iter()
        .enumerate()
        .filter(|(_, o)| **o == op)
        .map(|(i, _)| i)
        .collect()
}

#[test]
fn scene_draw_recorded_strictly_before_gui_draw() {
    let plan = plan_frame(&vec![TexId::Managed(0), TexId::User(7)], &vec![TexId::Managed(3)]);
    let scene = positions(&plan, FrameOp::SceneDraw);
    let gui = positions(&plan, FrameOp::GuiDraw);
    assert_eq!(scene.len(), 1);
    assert_eq!(gui.len(), 1);
    assert!(scene[0] < gui[0]);
}

#[test]
fn empty_frame_plan_is_the_canonical_sequence() {
    // A frame with no GUI texture changes: scene update, GUI buffer
    // upload, then acquire, pass, scene draw, GUI draw, end, submit,
    // present.
    let plan = plan_frame(&Vec::new(), &Vec::new());
    assert_eq!(
        plan,
        vec![
            FrameOp::SceneUpdate,
            FrameOp::UpdateGuiBuffers,
            FrameOp::AcquireFrame,
            FrameOp::BeginPass,
            FrameOp::SceneDraw,
            FrameOp::GuiDraw,
            FrameOp::EndPass,
            FrameOp::Submit,
            FrameOp::Present,
        ]
    );
}

#[test]
fn added_texture_uploaded_exactly_once_before_pass() {
    // One added texture id: exactly one upload, recorded before the pass
    // opens.
    let t = TexId::Managed(42);
    let plan = plan_frame(&vec![t], &Vec::new());
    let sets = positions(&plan, FrameOp::SetTexture(t));
    let begin = positions(&plan, FrameOp::BeginPass);
    assert_eq!(sets.len(), 1);
    assert_eq!(begin.len(), 1);
    assert!(sets[0] < begin[0]);
    // Then a delta freeing the same id: exactly one free.
    let plan = plan_frame(&Vec::new(), &vec![t]);
    let frees = positions(&plan, FrameOp::FreeTexture(t));
    assert_eq!(frees.len(), 1);
    assert!(frees[0] < positions(&plan, FrameOp::BeginPass)[0]);
    assert!(positions(&plan, FrameOp::SetTexture(t)).is_empty());
}

#[test]
fn texture_sync_preserves_delta_order() {
    let a = TexId::Managed(1);
    let b = TexId::User(2);
    let c = TexId::Managed(3);
    let plan = plan_frame(&vec![a, b], &vec![c]);
    assert_eq!(plan[0], FrameOp::SceneUpdate);
    assert_eq!(plan[1], FrameOp::SetTexture(a));
    assert_eq!(plan[2], FrameOp::SetTexture(b));
    assert_eq!(plan[3], FrameOp::FreeTexture(c));
    assert_eq!(plan[4], FrameOp::UpdateGuiBuffers);
    assert_eq!(plan[5], FrameOp::AcquireFrame);
}

#[test]
fn submission_and_presentation_close_every_plan() {
    let plan = plan_frame(&vec![TexId::User(9)], &vec![TexId::User(9)]);
    let n = plan.len();
    assert_eq!(plan[n - 1], FrameOp::Present);
    assert_eq!(plan[n - 2], FrameOp::Submit);
    assert_eq!(plan[n - 3], FrameOp::EndPass);
}
