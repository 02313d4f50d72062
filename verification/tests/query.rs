use window_inspector::query::{dwm_get_window_rect, get_window_rect, succeeded, OsError};
use window_inspector::rect::PrettyPrintRect;

const E_HANDLE: i32 = -2147024890;

#[test]
fn status_codes_from_zero_up_succeed() {
    assert!(succeeded(0));
    assert!(succeeded(1));
    assert!(succeeded(i32::MAX));
    assert!(!succeeded(-1));
    assert!(!succeeded(E_HANDLE));
    assert!(!succeeded(i32::MIN));
}

#[test]
fn extended_frame_bounds_on_success() {
    let bounds = PrettyPrintRect::new(10, 20, 110, 220);
    assert_eq!(dwm_get_window_rect(0, bounds), Ok(bounds));
    assert_eq!(dwm_get_window_rect(1, bounds), Ok(bounds));
}

#[test]
fn extended_frame_bounds_failure_carries_the_status() {
    let untouched = PrettyPrintRect::zeroed();
    assert_eq!(dwm_get_window_rect(E_HANDLE, untouched), Err(OsError { code: E_HANDLE }));
    assert_eq!(dwm_get_window_rect(-1, untouched), Err(OsError { code: -1 }));
    let filled = PrettyPrintRect::new(1, 2, 3, 4);
    assert_eq!(dwm_get_window_rect(i32::MIN, filled), Err(OsError { code: i32::MIN }));
}

#[test]
fn bounding_rectangle_on_success() {
    let rect = PrettyPrintRect::new(-8, -8, 1928, 1048);
    assert_eq!(get_window_rect(1, rect), Ok(rect));
    assert_eq!(get_window_rect(-1, rect), Ok(rect));
    assert_eq!(get_window_rect(i32::MIN, rect), Ok(rect));
}

#[test]
fn bounding_rectangle_failure_carries_zero() {
    assert_eq!(get_window_rect(0, PrettyPrintRect::zeroed()), Err(OsError { code: 0 }));
    assert_eq!(get_window_rect(0, PrettyPrintRect::new(1, 2, 3, 4)), Err(OsError { code: 0 }));
}
