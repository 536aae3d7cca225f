use audio_sender::device::{contains_sub, find_by_name, resolve, DeviceError};

fn names(list: &[&str]) -> Vec<Vec<u8>> {
    list.iter().map(|n| n.as_bytes().to_vec()).collect()
}

#[test]
fn query_picks_first_containing_name() {
    let devices = names(&["USB Mic", "Built-in Mic"]);
    let query = b"USB".to_vec();
    assert_eq!(resolve(&devices, Some(&query), None), Ok(0));
    assert_eq!(find_by_name(&devices, &query), Ok(0));
}

#[test]
fn query_without_match_is_device_not_found() {
    let devices = names(&["USB Mic", "Built-in Mic"]);
    let query = b"Missing".to_vec();
    assert_eq!(resolve(&devices, Some(&query), None), Err(DeviceError::DeviceNotFound));
}

#[test]
fn no_query_returns_default_device() {
    let devices = names(&["USB Mic", "Built-in Mic"]);
    assert_eq!(resolve(&devices, None, Some(1)), Ok(1));
}

#[test]
fn no_query_and_no_default_fails() {
    let devices = names(&["USB Mic"]);
    assert_eq!(resolve(&devices, None, None), Err(DeviceError::NoDefaultDevice));
}

#[test]
fn query_is_case_sensitive() {
    let devices = names(&["USB Mic"]);
    assert_eq!(
        resolve(&devices, Some(&b"usb".to_vec()), None),
        Err(DeviceError::DeviceNotFound)
    );
}

#[test]
fn first_match_wins_in_enumeration_order() {
    let devices = names(&["Front Mic", "Rear Mic", "Mic Array"]);
    assert_eq!(resolve(&devices, Some(&b"Mic".to_vec()), None), Ok(0));
    assert_eq!(resolve(&devices, Some(&b"Rear".to_vec()), None), Ok(1));
    assert_eq!(resolve(&devices, Some(&b"Array".to_vec()), None), Ok(2));
}

#[test]
fn substring_edges() {
    let hay = b"abcde".to_vec();
    assert!(contains_sub(&hay, &b"".to_vec()));
    assert!(contains_sub(&hay, &b"abcde".to_vec()));
    assert!(contains_sub(&hay, &b"cd".to_vec()));
    assert!(!contains_sub(&hay, &b"abcdef".to_vec()));
    assert!(!contains_sub(&hay, &b"ce".to_vec()));
    assert!(!contains_sub(&b"".to_vec(), &b"a".to_vec()));
    assert!(contains_sub(&b"".to_vec(), &b"".to_vec()));
}

#[test]
fn empty_enumeration_finds_nothing() {
    let devices: Vec<Vec<u8>> = Vec::new();
    assert_eq!(
        resolve(&devices, Some(&b"USB".to_vec()), None),
        Err(DeviceError::DeviceNotFound)
    );
}
