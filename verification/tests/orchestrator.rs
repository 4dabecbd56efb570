use path_marcher::config::{Mode, Options, SceneConfig};
use path_marcher::buffers::BufferId;
use path_marcher::orchestrator::{
    output_kind, outputs, plan, scene_options, trace_options, OutputFile,
};
use path_marcher::run_loop::{actions, Action};
use path_marcher::paths::OutputKind;

fn config(num_subscenes: i32) -> SceneConfig {
    SceneConfig { num_targets: 2, num_runs: 5, num_subscenes, impulse_len: 300 }
}

fn tally(list: &[Options]) -> (usize, usize, usize) {
    let mut scene = 0;
    let mut debug = 0;
    let mut audio = 0;
    for options in list {
        for file in outputs(options) {
            match file.kind {
                OutputKind::SceneImage => scene += 1,
                OutputKind::DebugImage => debug += 1,
                OutputKind::ImpulseAudio => audio += 1,
            }
        }
    }
    (scene, debug, audio)
}

fn paths(files: &[OutputFile]) -> Vec<(OutputKind, String)> {
    files.iter().map(|f| (f.kind, f.path.clone())).collect()
}

#[test]
fn debug_only_writes_three_images_and_no_audio() {
    let list = plan(&config(3), true, 64);
    assert_eq!(list.len(), 3);
    assert_eq!(tally(&list), (3, 0, 0));
}

#[test]
fn full_run_writes_three_of_each() {
    let list = plan(&config(3), false, 64);
    assert_eq!(list.len(), 6);
    assert_eq!(tally(&list), (3, 3, 3));
}

#[test]
fn no_subscenes_no_invocations() {
    assert!(plan(&config(0), false, 64).is_empty());
    assert!(plan(&config(-2), false, 64).is_empty());
    assert!(plan(&config(0), true, 64).is_empty());
}

#[test]
fn debug_comes_before_trace() {
    let list = plan(&config(2), false, 16);
    let kinds: Vec<(bool, i32)> =
        list.iter().map(|o| (matches!(o.mode, Mode::Trace(_)), o.subscene)).collect();
    assert_eq!(kinds, vec![(false, 0), (true, 0), (false, 1), (true, 1)]);
}

#[test]
fn grid_is_square() {
    for options in plan(&config(2), false, 48) {
        assert_eq!(options.width, 48);
        assert_eq!(options.height, 48);
    }
}

#[test]
fn trace_options_come_from_the_config() {
    let c = SceneConfig { num_targets: 6, num_runs: 11, num_subscenes: 4, impulse_len: 1234 };
    let list = plan(&c, false, 8);
    match &list[5].mode {
        Mode::Trace(t) => {
            assert_eq!(t.impulse_len, 1234);
            assert_eq!(t.channels, 6);
            assert_eq!(t.num_runs, 11);
            assert_eq!(t.out_file, "output/impulse002.wav");
        }
        Mode::SceneDebug => panic!("the sixth invocation traces"),
    }
    assert_eq!(list[5].subscene, 2);
}

#[test]
fn outputs_of_a_debug_invocation() {
    let o = scene_options(32, 4);
    assert_eq!(
        paths(&outputs(&o)),
        vec![(OutputKind::SceneImage, String::from("output/scene004.png"))]
    );
}

#[test]
fn outputs_of_a_trace_invocation() {
    let o = trace_options(&config(20), 32, 17);
    assert_eq!(
        paths(&outputs(&o)),
        vec![
            (OutputKind::DebugImage, String::from("output/debug017.png")),
            (OutputKind::ImpulseAudio, String::from("output/impulse017.wav")),
        ]
    );
}

#[test]
fn audio_goes_where_the_options_say() {
    let mut o = trace_options(&config(1), 32, 0);
    if let Mode::Trace(t) = &mut o.mode {
        t.out_file = String::from("elsewhere.wav");
    }
    let files = outputs(&o);
    assert_eq!(files[1].path, "elsewhere.wav");
    assert_eq!(files[0].path, "output/debug000.png");
}

#[test]
fn subscenes_share_nothing() {
    let a = plan(&config(5), false, 16);
    let b = plan(&config(9), false, 16);
    for k in 0..a.len() {
        assert_eq!(paths(&outputs(&a[k])), paths(&outputs(&b[k])));
        assert_eq!(a[k].subscene, b[k].subscene);
    }
}

#[test]
fn buffers_feed_their_files() {
    assert_eq!(output_kind(BufferId::SceneImage), Some(OutputKind::SceneImage));
    assert_eq!(output_kind(BufferId::DebugImage), Some(OutputKind::DebugImage));
    assert_eq!(output_kind(BufferId::Impulse), Some(OutputKind::ImpulseAudio));
}

#[test]
fn path_state_feeds_no_file() {
    assert_eq!(output_kind(BufferId::MinTarget), None);
    assert_eq!(output_kind(BufferId::TotalDist), None);
    assert_eq!(output_kind(BufferId::IntersectPos), None);
    assert_eq!(output_kind(BufferId::IntersectDir), None);
    assert_eq!(output_kind(BufferId::ClosestBounce), None);
}

#[test]
fn read_backs_and_files_go_together() {
    for options in plan(&config(2), false, 8) {
        let read: Vec<Option<OutputKind>> = actions(options.mode.kind(), 3)
            .iter()
            .filter_map(|a| match a {
                Action::ReadBack { buffer } => Some(output_kind(*buffer)),
                _ => None,
            })
            .collect();
        let written: Vec<Option<OutputKind>> =
            outputs(&options).iter().map(|f| Some(f.kind)).collect();
        assert_eq!(read, written);
    }
}
