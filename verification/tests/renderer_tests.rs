use raytracing::args::{ArgCamera, Args};
use raytracing::renderer::{
    pixel_count, pixel_position, pixels_per_worker, RenderSettings, DEFAULT_MAX_DEPTH,
    PREVIEW_MAX_DEPTH, PREVIEW_SAMPLES,
};

#[test]
fn preview_mode_overrides_requested_samples() {
    // A preview with a high requested sample count still runs with one
    // sample per pixel and depth limit one.
    let args =
        Args { preview: true, width: 5, height: 5, camera: ArgCamera::Simple, samples: 25 };
    let settings = RenderSettings::new(&args);
    assert_eq!(settings.samples, 1);
    assert_eq!(settings.max_depth(), 1);
}

#[test]
fn full_mode_keeps_requested_samples() {
    for samples in [1, 2, 4, 8] {
        let args =
            Args { preview: false, width: 2, height: 2, camera: ArgCamera::Simple, samples };
        let settings = RenderSettings::new(&args);
        assert_eq!(settings.samples, samples);
        assert_eq!(settings.max_depth(), 5);
    }
}

#[test]
fn depth_limits_match_mode_constants() {
    assert_eq!(PREVIEW_SAMPLES, 1);
    assert_eq!(PREVIEW_MAX_DEPTH, 1);
    assert_eq!(DEFAULT_MAX_DEPTH, 5);
}

#[test]
fn trace_cut_off_is_exactly_beyond_the_limit() {
    let args =
        Args { preview: false, width: 2, height: 2, camera: ArgCamera::ThinLens, samples: 4 };
    let settings = RenderSettings::new(&args);
    assert!(!settings.depth_exceeded(0));
    assert!(!settings.depth_exceeded(5));
    assert!(settings.depth_exceeded(6));
    let preview =
        Args { preview: true, width: 2, height: 2, camera: ArgCamera::ThinLens, samples: 4 };
    let settings = RenderSettings::new(&preview);
    assert!(!settings.depth_exceeded(1));
    assert!(settings.depth_exceeded(2));
}

#[test]
fn pixel_buffer_has_one_entry_per_pixel() {
    assert_eq!(pixel_count(10, 10), 100);
    assert_eq!(pixel_count(5, 5), 25);
    assert_eq!(pixel_count(3, 3), 9);
    assert_eq!(pixel_count(1, 1), 1);
    assert_eq!(pixel_count(8192, 8192), 67_108_864);
}

#[test]
fn pixel_positions_enumerate_row_major() {
    assert_eq!(pixel_position(0, 10), (0, 0));
    assert_eq!(pixel_position(7, 10), (7, 0));
    assert_eq!(pixel_position(10, 10), (0, 1));
    assert_eq!(pixel_position(57, 10), (7, 5));
    assert_eq!(pixel_position(99, 10), (9, 9));
}

#[test]
fn worker_chunks_cover_every_pixel() {
    assert_eq!(pixels_per_worker(100, 8), 13);
    assert_eq!(pixels_per_worker(100, 1), 100);
    assert_eq!(pixels_per_worker(7, 8), 1);
    assert_eq!(pixels_per_worker(0, 4), 0);
    assert_eq!(pixels_per_worker(64, 8), 8);
}
