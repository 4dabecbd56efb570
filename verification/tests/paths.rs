use path_marcher::paths::{output_path, OutputKind};

#[test]
fn paths_of_the_first_subscene() {
    assert_eq!(output_path(OutputKind::SceneImage, 0), "output/scene000.png");
    assert_eq!(output_path(OutputKind::DebugImage, 0), "output/debug000.png");
    assert_eq!(output_path(OutputKind::ImpulseAudio, 0), "output/impulse000.wav");
}

#[test]
fn index_is_padded_to_three() {
    assert_eq!(output_path(OutputKind::SceneImage, 7), "output/scene007.png");
    assert_eq!(output_path(OutputKind::SceneImage, 42), "output/scene042.png");
    assert_eq!(output_path(OutputKind::SceneImage, 123), "output/scene123.png");
    assert_eq!(output_path(OutputKind::SceneImage, 99), "output/scene099.png");
    assert_eq!(output_path(OutputKind::SceneImage, 100), "output/scene100.png");
    assert_eq!(output_path(OutputKind::SceneImage, 10), "output/scene010.png");
    assert_eq!(output_path(OutputKind::SceneImage, 9), "output/scene009.png");
}

#[test]
fn long_index_is_not_cut() {
    assert_eq!(output_path(OutputKind::ImpulseAudio, 1000), "output/impulse1000.wav");
    assert_eq!(
        output_path(OutputKind::ImpulseAudio, i32::MAX),
        "output/impulse2147483647.wav"
    );
}

#[test]
fn negative_index_counts_its_sign() {
    assert_eq!(output_path(OutputKind::DebugImage, -5), "output/debug-05.png");
    assert_eq!(output_path(OutputKind::DebugImage, -12), "output/debug-12.png");
    assert_eq!(output_path(OutputKind::DebugImage, -123), "output/debug-123.png");
    assert_eq!(output_path(OutputKind::DebugImage, i32::MIN), "output/debug-2147483648.png");
}

#[test]
fn paths_follow_the_standard_formatting() {
    let mut n: i32 = -1500;
    while n <= 1500 {
        assert_eq!(output_path(OutputKind::SceneImage, n), format!("output/scene{:03}.png", n));
        assert_eq!(output_path(OutputKind::DebugImage, n), format!("output/debug{:03}.png", n));
        assert_eq!(
            output_path(OutputKind::ImpulseAudio, n),
            format!("output/impulse{:03}.wav", n)
        );
        n += 1;
    }
}
