use traindaily::mic::{input_in_use, is_mic_active, presence_or_inactive, PresenceError};

#[test]
fn test_mic_detection() {
    // Should not panic
    let result = is_mic_active();
    assert!(result.is_ok());

    // Log result for manual verification
    println!("Mic active: {:?}", result.unwrap());
}

#[test]
fn presence_failure_counts_as_inactive() {
    assert!(!presence_or_inactive(Err(PresenceError::Unavailable)));
    assert!(presence_or_inactive(Ok(true)));
    assert!(!presence_or_inactive(Ok(false)));
}

#[test]
fn input_device_readings() {
    assert!(input_in_use(Some(73), Some(1)));
    assert!(!input_in_use(Some(73), Some(0)));
    assert!(!input_in_use(Some(73), None));
    assert!(!input_in_use(Some(0), Some(1)));
    assert!(!input_in_use(None, Some(1)));
}
