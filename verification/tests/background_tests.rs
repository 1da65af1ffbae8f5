use motion_detection_camera::background::{BackgroundModel, DEFAULT_DIFF_THRESHOLD};
use motion_detection_camera::frame::Frame;

fn constant_frame(width: usize, height: usize, v: u8) -> Frame {
    Frame::new(width, height, vec![v; width * height])
}

#[test]
fn frame_accessors() {
    let f = Frame::new(3, 2, vec![1, 2, 3, 4, 5, 6]);
    assert_eq!(f.width(), 3);
    assert_eq!(f.height(), 2);
    assert_eq!(f.size(), 6);
    assert_eq!(f.pixel(0), 1);
    assert_eq!(f.pixel(5), 6);
}

#[test]
fn first_frame_initializes_with_zero_mask() {
    let mut model = BackgroundModel::new(4, 3, DEFAULT_DIFF_THRESHOLD);
    assert!(!model.initialized());
    let mask = model.update(&constant_frame(4, 3, 17));
    assert!(model.initialized());
    assert_eq!(mask.len(), 12);
    assert!(mask.iter().all(|&p| p == 0));
    for i in 0..12 {
        assert_eq!(model.accumulator(i), 17 * 256);
    }
}

#[test]
fn constant_input_keeps_mask_zero() {
    let mut model = BackgroundModel::new(2, 2, DEFAULT_DIFF_THRESHOLD);
    model.update(&constant_frame(2, 2, 90));
    for _ in 0..5 {
        let mask = model.update(&constant_frame(2, 2, 90));
        assert!(mask.iter().all(|&p| p == 0));
        assert_eq!(model.accumulator(0), 90 * 256);
    }
}

#[test]
fn large_jump_marks_motion() {
    let mut model = BackgroundModel::new(2, 1, DEFAULT_DIFF_THRESHOLD);
    model.update(&constant_frame(2, 1, 0));
    let mask = model.update(&constant_frame(2, 1, 255));
    // smoothing step: (768 * 255 + 2 * 0 + 2) / 5 == 39168,
    // restored intensity: (39168 + 128) / 256 == 153, |255 - 153| > 40.
    assert_eq!(model.accumulator(0), 39168);
    assert_eq!(mask, vec![255, 255]);
}

#[test]
fn small_change_stays_quiet() {
    let mut model = BackgroundModel::new(1, 1, DEFAULT_DIFF_THRESHOLD);
    model.update(&constant_frame(1, 1, 100));
    let mask = model.update(&constant_frame(1, 1, 120));
    // smoothing step: (768 * 120 + 2 * 25600 + 2) / 5 == 28672,
    // restored intensity: (28672 + 128) / 256 == 112, |120 - 112| <= 40.
    assert_eq!(model.accumulator(0), 28672);
    assert_eq!(mask, vec![0]);
}

#[test]
fn threshold_is_strict() {
    // A pixel exactly at the threshold distance stays background.
    let mut model = BackgroundModel::new(1, 1, 102);
    model.update(&constant_frame(1, 1, 0));
    // After one step towards 255 the restored background is 153 and the
    // difference 102: not strictly above a threshold of 102.
    let mask = model.update(&constant_frame(1, 1, 255));
    assert_eq!(mask, vec![0]);
    let mut model2 = BackgroundModel::new(1, 1, 101);
    model2.update(&constant_frame(1, 1, 0));
    let mask2 = model2.update(&constant_frame(1, 1, 255));
    assert_eq!(mask2, vec![255]);
}

#[test]
fn constant_feed_converges_to_input() {
    let mut model = BackgroundModel::new(3, 3, DEFAULT_DIFF_THRESHOLD);
    model.update(&constant_frame(3, 3, 0));
    let mut converged_at = None;
    for step in 0..50 {
        let mask = model.update(&constant_frame(3, 3, 200));
        if converged_at.is_none() && (0..9).all(|i| model.accumulator(i) == 200 * 256) {
            assert!(mask.iter().all(|&p| p == 0));
            converged_at = Some(step);
        }
    }
    // Geometric convergence: the fixed point is reached quickly and exactly.
    let at = converged_at.expect("accumulator should converge to the input");
    assert!(at < 20);
    // ... and it stays there, with an all-zero mask, from then on.
    let mask = model.update(&constant_frame(3, 3, 200));
    assert!(mask.iter().all(|&p| p == 0));
    assert_eq!(model.accumulator(4), 200 * 256);
}
