use cedar_detect_server::binning::resolve_binning;
use cedar_detect_server::errors::{ServiceError, StatusKind};

#[test]
fn no_flags_and_no_value_gives_one() {
    assert_eq!(resolve_binning(false, false, None), Ok(1));
}

#[test]
fn no_flags_ignores_supplied_value() {
    assert_eq!(resolve_binning(false, false, Some(4)), Ok(1));
    assert_eq!(resolve_binning(false, false, Some(2)), Ok(1));
    assert_eq!(resolve_binning(false, false, Some(3)), Ok(1));
}

#[test]
fn use_binned_flag_defaults_to_two() {
    assert_eq!(resolve_binning(true, false, None), Ok(2));
}

#[test]
fn return_binned_flag_defaults_to_two() {
    assert_eq!(resolve_binning(false, true, None), Ok(2));
}

#[test]
fn explicit_two_is_kept() {
    assert_eq!(resolve_binning(false, true, Some(2)), Ok(2));
    assert_eq!(resolve_binning(true, false, Some(2)), Ok(2));
}

#[test]
fn explicit_four_is_kept() {
    assert_eq!(resolve_binning(true, true, Some(4)), Ok(4));
    assert_eq!(resolve_binning(true, false, Some(4)), Ok(4));
}

#[test]
fn explicit_three_is_refused_when_a_flag_is_set() {
    assert_eq!(
        resolve_binning(true, false, Some(3)),
        Err(ServiceError::InvalidBinning(3))
    );
    assert_eq!(
        resolve_binning(false, true, Some(3)),
        Err(ServiceError::InvalidBinning(3))
    );
}

#[test]
fn explicit_one_is_refused_when_a_flag_is_set() {
    assert_eq!(
        resolve_binning(true, true, Some(1)),
        Err(ServiceError::InvalidBinning(1))
    );
}

#[test]
fn binning_error_is_callers_to_correct() {
    let e = resolve_binning(true, false, Some(5)).unwrap_err();
    assert_eq!(e.status_kind(), StatusKind::InvalidArgument);
}
