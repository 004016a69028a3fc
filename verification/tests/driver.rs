use render_bridge::bindless_textures::BindlessTextures;
use render_bridge::driver::{Action, Event, FrameDriver, Phase, NO_FRAME};
use render_bridge::registration::{is_builtin, plan_node_bindings};

fn names(list: &[&str]) -> Vec<String> {
    list.iter().map(|s| String::from(*s)).collect()
}

#[test]
fn a_frame_runs_its_batches_in_order() {
    let mut driver = FrameDriver::new();
    assert_eq!(driver.frame_index, 0);
    assert_eq!(driver.completed_frame_index, NO_FRAME);
    assert_eq!(
        driver.step(Event::RedrawRequested),
        Action::UpdateGraph { frame_index: 0, gpu_completed_frame_index: u64::MAX }
    );
    assert_eq!(driver.step(Event::GraphUpdated { batches: 3 }), Action::RecordBatch { batch: 0 });
    assert_eq!(driver.step(Event::BatchSubmitted), Action::RecordBatch { batch: 1 });
    assert_eq!(driver.step(Event::BatchSubmitted), Action::RecordBatch { batch: 2 });
    assert_eq!(driver.step(Event::BatchSubmitted), Action::Present);
    assert_eq!(driver.phase, Phase::Present);
    assert_eq!(driver.step(Event::Presented), Action::Wait);
    assert_eq!(driver, FrameDriver { frame_index: 1, completed_frame_index: 0, phase: Phase::Idle });
    assert_eq!(
        driver.step(Event::RedrawRequested),
        Action::UpdateGraph { frame_index: 1, gpu_completed_frame_index: 0 }
    );
}

#[test]
fn a_frame_without_batches_is_presented_at_once() {
    let mut driver = FrameDriver::new();
    driver.step(Event::RedrawRequested);
    assert_eq!(driver.step(Event::GraphUpdated { batches: 0 }), Action::Present);
    assert_eq!(driver.step(Event::Presented), Action::Wait);
    assert_eq!(driver.frame_index, 1);
}

#[test]
fn events_out_of_turn_are_rejected() {
    let mut driver = FrameDriver::new();
    for event in [Event::BatchSubmitted, Event::Presented, Event::GraphUpdated { batches: 2 }] {
        assert_eq!(driver.step(event), Action::Rejected);
        assert_eq!(driver, FrameDriver::new());
    }
    driver.step(Event::RedrawRequested);
    assert_eq!(driver.step(Event::RedrawRequested), Action::Rejected);
    assert_eq!(driver.step(Event::Presented), Action::Rejected);
    assert_eq!(driver.phase, Phase::GraphUpdate);
    driver.step(Event::GraphUpdated { batches: 2 });
    assert_eq!(driver.step(Event::Presented), Action::Rejected);
    assert_eq!(driver.step(Event::GraphUpdated { batches: 5 }), Action::Rejected);
    assert_eq!(driver.phase, Phase::BatchIterate { next: 0, count: 2 });
    assert_eq!(driver.step(Event::BatchSubmitted), Action::RecordBatch { batch: 1 });
    assert_eq!(driver.step(Event::BatchSubmitted), Action::Present);
    assert_eq!(driver.step(Event::BatchSubmitted), Action::Rejected);
}

#[test]
fn the_last_frame_index_has_no_successor() {
    let mut driver =
        FrameDriver { frame_index: u64::MAX, completed_frame_index: 5, phase: Phase::Present };
    assert_eq!(driver.step(Event::Presented), Action::Wait);
    assert_eq!(driver.frame_index, u64::MAX);
    assert_eq!(driver.completed_frame_index, u64::MAX);
    let mut full =
        FrameDriver { frame_index: 0, completed_frame_index: NO_FRAME, phase: Phase::GraphUpdate };
    assert_eq!(
        full.step(Event::GraphUpdated { batches: u32::MAX }),
        Action::RecordBatch { batch: 0 }
    );
    full.phase = Phase::BatchIterate { next: u32::MAX - 1, count: u32::MAX };
    assert_eq!(full.step(Event::BatchSubmitted), Action::Present);
}

#[test]
fn callbacks_are_bound_to_declared_nodes() {
    let declared = names(&["clear_color", "draw", "tonemap", "shadow", "draw", "clear_depth_stencil"]);
    let registered = names(&["blit_srgb", "draw", "tonemap", "draw", "clear_color"]);
    let plan = plan_node_bindings(&declared, &registered);
    assert_eq!(plan.bind, vec![1, 2]);
    assert_eq!(plan.unbound, vec![3]);
}

#[test]
fn nothing_is_bound_without_names() {
    let plan = plan_node_bindings(&names(&[]), &names(&["draw"]));
    assert!(plan.bind.is_empty());
    assert!(plan.unbound.is_empty());
    let plan = plan_node_bindings(&names(&["draw", "ui", "ui"]), &names(&[]));
    assert!(plan.bind.is_empty());
    assert_eq!(plan.unbound, vec![0, 1]);
    assert!(is_builtin(&String::from("clear_color")));
    assert!(is_builtin(&String::from("clear_depth_stencil")));
    assert!(!is_builtin(&String::from("clear")));
    assert!(!is_builtin(&String::from("")));
}

#[test]
fn bindless_ranges_stay_valid() {
    let mut registry: BindlessTextures<&'static str> = BindlessTextures::new();
    assert_eq!(registry.len(), 0);
    assert_eq!(registry.push(vec![]), 0..0);
    assert_eq!(registry.push(vec!["albedo", "normal"]), 0..2);
    assert_eq!(registry.push(vec!["emissive"]), 2..3);
    assert_eq!(registry.push(vec![]), 3..3);
    assert_eq!(registry.push(vec!["a", "b", "c"]), 3..6);
    assert_eq!(registry.len(), 6);
    let array = registry.texture_view_array();
    assert_eq!(array, vec![&"albedo", &"normal", &"emissive", &"a", &"b", &"c"]);
}
