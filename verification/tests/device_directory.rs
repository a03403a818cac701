use audio_capture::device::{build_device_list, resolve_input_device, Device};
use audio_capture::errors::CaptureError;

fn names(devices: &[Device]) -> Vec<String> {
    devices.iter().map(|d| d.name.clone()).collect()
}

fn answer(names: &[&str]) -> Option<Vec<Option<String>>> {
    Some(names.iter().map(|n| Some(n.to_string())).collect())
}

#[test]
fn device_new_keeps_name() {
    let d = Device::new("USB Microphone".to_string());
    assert_eq!(d.name, "USB Microphone");
}

#[test]
fn two_queries_over_same_snapshot_list_identical_names() {
    let first = build_device_list(answer(&["mic-a", "mic-b"]), answer(&["speak"])).unwrap();
    let second = build_device_list(answer(&["mic-a", "mic-b"]), answer(&["speak"])).unwrap();
    assert_eq!(names(&first.input_devices), names(&second.input_devices));
    assert_eq!(names(&first.output_devices), names(&second.output_devices));
    assert_eq!(names(&first.input_devices), vec!["mic-a", "mic-b"]);
    assert_eq!(names(&first.output_devices), vec!["speak"]);
}

#[test]
fn listing_keeps_host_enumeration_order() {
    let list = build_device_list(answer(&["z", "a", "m"]), answer(&[])).unwrap();
    assert_eq!(names(&list.input_devices), vec!["z", "a", "m"]);
    assert!(list.output_devices.is_empty());
}

#[test]
fn missing_input_iterator_is_enumeration_error() {
    let r = build_device_list(None, answer(&["speak"]));
    assert_eq!(r.err().unwrap(), CaptureError::DeviceEnumerationError);
}

#[test]
fn missing_output_iterator_is_enumeration_error() {
    let r = build_device_list(answer(&["mic"]), None);
    assert_eq!(r.err().unwrap(), CaptureError::DeviceEnumerationError);
}

#[test]
fn one_unreadable_name_fails_the_whole_listing() {
    let inputs = Some(vec![Some("mic".to_string()), None]);
    let r = build_device_list(inputs, answer(&["speak"]));
    assert_eq!(r.err().unwrap(), CaptureError::DeviceNameUnavailable);
}

#[test]
fn input_answer_is_judged_before_output_answer() {
    let bad_outputs = Some(vec![None]);
    let r = build_device_list(None, bad_outputs);
    assert_eq!(r.err().unwrap(), CaptureError::DeviceEnumerationError);
}

#[test]
fn resolve_finds_first_match() {
    let devices = vec![
        Device::new("mic-a".to_string()),
        Device::new("mic-b".to_string()),
        Device::new("mic-b".to_string()),
    ];
    assert_eq!(resolve_input_device(&devices, &"mic-b".to_string()).unwrap(), 1);
    assert_eq!(resolve_input_device(&devices, &"mic-a".to_string()).unwrap(), 0);
}

#[test]
fn resolve_unknown_name_is_device_not_found() {
    let devices = vec![Device::new("mic-a".to_string())];
    let r = resolve_input_device(&devices, &"nonexistent-device".to_string());
    assert_eq!(r.err().unwrap(), CaptureError::DeviceNotFound);
}

#[test]
fn resolve_against_empty_listing_is_device_not_found() {
    let devices: Vec<Device> = Vec::new();
    let r = resolve_input_device(&devices, &"anything".to_string());
    assert_eq!(r.err().unwrap(), CaptureError::DeviceNotFound);
}
