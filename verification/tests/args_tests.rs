use raytracing::args::{ArgCamera, Args};

fn base_args() -> Args {
    Args { preview: false, width: 500, height: 500, camera: ArgCamera::ThinLens, samples: 16 }
}

#[test]
fn validate_accepts_default_configuration() {
    assert!(base_args().validate().is_ok());
}

#[test]
fn validate_accepts_boundary_dimensions() {
    let mut args = base_args();
    args.width = 1;
    args.height = 8192;
    args.samples = 1;
    assert!(args.validate().is_ok());
}

#[test]
fn validate_rejects_zero_width() {
    let mut args = base_args();
    args.width = 0;
    assert_eq!(args.validate().unwrap_err(), "Width and height must be greater than 0");
}

#[test]
fn validate_rejects_zero_height() {
    let mut args = base_args();
    args.height = 0;
    assert_eq!(args.validate().unwrap_err(), "Width and height must be greater than 0");
}

#[test]
fn validate_rejects_zero_samples() {
    let mut args = base_args();
    args.samples = 0;
    assert_eq!(args.validate().unwrap_err(), "Sample count must be greater than 0");
}

#[test]
fn validate_rejects_oversized_dimensions() {
    let mut args = base_args();
    args.width = 8193;
    assert_eq!(args.validate().unwrap_err(), "Width and height must be 8192 or less");
    let mut args = base_args();
    args.height = 9000;
    assert_eq!(args.validate().unwrap_err(), "Width and height must be 8192 or less");
}

#[test]
fn validate_reports_dimensions_before_samples() {
    let mut args = base_args();
    args.width = 0;
    args.samples = 0;
    assert_eq!(args.validate().unwrap_err(), "Width and height must be greater than 0");
}
