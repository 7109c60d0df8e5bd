use scrcap::errors::CaptureError;
use scrcap::geometry::{
    find_output_from_region, focused_window_region, get_output, region_from_args, to_local,
    validate_region, Output, Region,
};

fn output(name: &str, x: i32, y: i32, width: i32, height: i32) -> Output {
    Output { name: String::from(name), x, y, width, height, scale: 1 }
}

#[test]
fn containment_accepts_equal_bounds() {
    let screen = Region::new(0, 0, 1920, 1080);
    assert!(screen.contains(&Region::new(0, 0, 1920, 1080)));
}

#[test]
fn containment_rejects_region_past_the_edge() {
    let screen = Region::new(0, 0, 1920, 1080);
    assert!(!screen.contains(&Region::new(1900, 1060, 50, 50)));
}

#[test]
fn containment_rejects_negative_origin() {
    let screen = Region::new(0, 0, 1920, 1080);
    assert!(!screen.contains(&Region::new(-1, 0, 10, 10)));
}

#[test]
fn containment_handles_extreme_coordinates_without_wrapping() {
    let screen = Region::new(0, 0, i32::MAX, i32::MAX);
    assert!(screen.contains(&Region::new(1, 1, i32::MAX - 1, i32::MAX - 1)));
    assert!(!screen.contains(&Region::new(1, 1, i32::MAX, i32::MAX)));
}

#[test]
fn named_output_resolves_to_exact_match() {
    let outputs = vec![output("DP-1", 0, 0, 1920, 1080), output("eDP-1", 1920, 0, 1280, 800)];
    let name = String::from("DP-1");
    let found = get_output(Some(&name), &outputs).unwrap();
    assert_eq!(found.name, "DP-1");
}

#[test]
fn unknown_output_name_fails_not_found() {
    let outputs = vec![output("DP-1", 0, 0, 1920, 1080), output("eDP-1", 1920, 0, 1280, 800)];
    let name = String::from("HDMI-1");
    assert_eq!(get_output(Some(&name), &outputs).unwrap_err(), CaptureError::NotFound);
}

#[test]
fn no_name_resolves_to_first_output() {
    let outputs = vec![output("DP-1", 0, 0, 1920, 1080), output("eDP-1", 1920, 0, 1280, 800)];
    let found = get_output(None, &outputs).unwrap();
    assert_eq!(found.name, "DP-1");
}

#[test]
fn no_outputs_at_all_fails_not_found() {
    let outputs: Vec<Output> = Vec::new();
    assert_eq!(get_output(None, &outputs).unwrap_err(), CaptureError::NotFound);
}

#[test]
fn region_resolves_to_first_containing_output() {
    let outputs = vec![output("DP-1", 0, 0, 1920, 1080), output("eDP-1", 1920, 0, 1280, 800)];
    let found = find_output_from_region(Region::new(2000, 100, 100, 100), &outputs).unwrap();
    assert_eq!(found.name, "eDP-1");
}

#[test]
fn region_spanning_outputs_is_invalid() {
    let outputs = vec![output("DP-1", 0, 0, 1920, 1080), output("eDP-1", 1920, 0, 1280, 800)];
    let r = find_output_from_region(Region::new(1900, 100, 100, 100), &outputs);
    assert_eq!(r.unwrap_err(), CaptureError::InvalidRegion);
}

#[test]
fn validate_region_rejects_degenerate_and_out_of_bounds() {
    let out = output("DP-1", 0, 0, 1920, 1080);
    assert!(validate_region(&Region::new(0, 0, 1920, 1080), &out).is_ok());
    assert_eq!(
        validate_region(&Region::new(0, 0, 0, 10), &out).unwrap_err(),
        CaptureError::InvalidRegion
    );
    assert_eq!(
        validate_region(&Region::new(-1, 0, 10, 10), &out).unwrap_err(),
        CaptureError::InvalidRegion
    );
}

#[test]
fn to_local_translates_into_output_coordinates() {
    let out = output("eDP-1", 1920, 0, 1280, 800);
    let local = to_local(&Region::new(2000, 100, 100, 100), &out);
    assert_eq!((local.x, local.y, local.width, local.height), (80, 100, 100, 100));
}

#[test]
fn region_from_args_none_when_no_coordinate_given() {
    let out = output("DP-1", 0, 0, 1920, 1080);
    assert!(region_from_args(None, None, None, None, &out).is_none());
}

#[test]
fn region_from_args_defaults_extents_to_remaining_space() {
    let out = output("DP-1", 0, 0, 1920, 1080);
    let r = region_from_args(Some(100), Some(200), None, None, &out).unwrap().unwrap();
    assert_eq!((r.x, r.y, r.width, r.height), (100, 200, 1820, 880));
}

#[test]
fn region_from_args_rejects_out_of_bounds_request() {
    let out = output("DP-1", 0, 0, 1920, 1080);
    let r = region_from_args(Some(1900), Some(1060), Some(50), Some(50), &out).unwrap();
    assert_eq!(r.unwrap_err(), CaptureError::InvalidRegion);
}

#[test]
fn focused_window_region_offsets_node_by_window_rect() {
    let r = focused_window_region(100, 50, 5, 30, 640, 480);
    assert_eq!((r.x, r.y, r.width, r.height), (105, 80, 640, 480));
}

#[test]
fn default_output_is_unnamed_and_empty() {
    let out = Output::default();
    assert_eq!(out.name, "<unknown>");
    assert_eq!((out.x, out.y, out.width, out.height, out.scale), (0, 0, 0, 0, 1));
}
