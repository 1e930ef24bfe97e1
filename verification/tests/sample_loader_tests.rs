use tafd::error::{exit_status, input_error_is_fatal, TafdError, EXIT_FAILURE, EXIT_NO_PERMISSION};
use std::path::PathBuf;

use tafd::sample_loader::{
    decimal_string, missing_sample_error, sample_file_name, sample_pack_plan, SoundPackPlan, EMBEDDED_VARIATIONS,
};

#[test]
fn decimal_text() {
    assert_eq!(decimal_string(0), "0");
    assert_eq!(decimal_string(7), "7");
    assert_eq!(decimal_string(10), "10");
    assert_eq!(decimal_string(1234), "1234");
    assert_eq!(decimal_string(usize::MAX), usize::MAX.to_string());
}

#[test]
fn click_file_names_are_one_based() {
    assert_eq!(sample_file_name(0), "click1.wav");
    assert_eq!(sample_file_name(7), "click8.wav");
    assert_eq!(sample_file_name(99), "click100.wav");
}

#[test]
fn pack_lists_click_files_in_order() {
    match sample_pack_plan(Some(PathBuf::from("/sounds")), 3) {
        SoundPackPlan::Files { dir, names } => {
            assert_eq!(dir, PathBuf::from("/sounds"));
            assert_eq!(names, vec!["click1.wav", "click2.wav", "click3.wav"]);
        }
        other => panic!("unexpected {:?}", other),
    }
    match sample_pack_plan(Some(PathBuf::from("/sounds")), 0) {
        SoundPackPlan::Files { names, .. } => assert!(names.is_empty()),
        other => panic!("unexpected {:?}", other),
    }
}

#[test]
fn unconfigured_pack_uses_embedded_clicks() {
    assert_eq!(EMBEDDED_VARIATIONS, 8);
    assert_eq!(sample_pack_plan(None, 3), SoundPackPlan::Embedded { clicks: vec![0, 1, 2] });
    assert_eq!(
        sample_pack_plan(None, 10),
        SoundPackPlan::Embedded { clicks: vec![0, 1, 2, 3, 4, 5, 6, 7, 0, 1] }
    );
}

#[test]
fn missing_file_error_names_the_path() {
    match missing_sample_error(PathBuf::from("/sounds/click2.wav")) {
        TafdError::SoundPackLoad { path, reason } => {
            assert_eq!(path, PathBuf::from("/sounds/click2.wav"));
            assert_eq!(reason, "file not found");
        }
        other => panic!("unexpected {:?}", other),
    }
}

#[test]
fn permission_problems_exit_with_77() {
    let denied = TafdError::InputPermission("hint".to_string());
    assert_eq!(exit_status(&denied), 77);
    assert_eq!(EXIT_NO_PERMISSION, 77);
    assert!(input_error_is_fatal(&denied));
    let other = TafdError::InputInit("x".to_string());
    assert_eq!(exit_status(&other), EXIT_FAILURE);
    assert!(!input_error_is_fatal(&other));
    assert_eq!(exit_status(&TafdError::Shutdown), 1);
}
