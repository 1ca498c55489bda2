use pluely::capture::{capture_to_base64, encode_capture, png_to_base64, primary_monitor, select_monitor};

#[test]
fn base64_of_encoded_bytes() {
    assert_eq!(png_to_base64(Ok(vec![1, 2, 3])), Ok("AQID".to_string()));
    assert_eq!(png_to_base64(Ok(vec![0xff])), Ok("/w==".to_string()));
    assert_eq!(png_to_base64(Ok(Vec::new())), Ok(String::new()));
}

#[test]
fn encoder_error_is_prefixed() {
    assert_eq!(
        png_to_base64(Err("bad".to_string())),
        Err("Failed to encode to PNG: bad".to_string())
    );
}

#[test]
fn capture_encodes_png_as_base64() {
    let rgba = vec![255u8, 0, 0, 255, 0, 255, 0, 255];
    let text = encode_capture(&rgba, 2, 1).unwrap();
    assert!(text.starts_with("iVBORw0KGgo"));
    assert_eq!(text.len() % 4, 0);
}

#[test]
fn primary_monitor_is_first_marked() {
    assert_eq!(primary_monitor(&vec![false, true, true]), Ok(1));
    assert_eq!(primary_monitor(&vec![true]), Ok(0));
    assert_eq!(primary_monitor(&vec![false, false]), Err("No primary monitor found".to_string()));
    assert_eq!(primary_monitor(&Vec::new()), Err("No primary monitor found".to_string()));
}

#[test]
fn capture_text_is_padded_base64() {
    let rgba = vec![0u8; 4 * 3 * 2];
    let text = encode_capture(&rgba, 3, 2).unwrap();
    assert!(text.chars().all(|c| c.is_ascii_alphanumeric() || c == '+' || c == '/' || c == '='));
}

#[test]
fn monitor_selection_errors() {
    assert_eq!(
        select_monitor(Err("no display".to_string())),
        Err("Failed to get monitors: no display".to_string())
    );
    assert_eq!(select_monitor(Ok(vec![false])), Err("No primary monitor found".to_string()));
    assert_eq!(select_monitor(Ok(vec![false, true])), Ok(1));
}

#[test]
fn capture_result_errors_and_text() {
    assert_eq!(
        capture_to_base64(Err("denied".to_string())),
        Err("Failed to capture image: denied".to_string())
    );
    let text = capture_to_base64(Ok((vec![9u8; 4], 1, 1))).unwrap();
    assert!(text.starts_with("iVBORw0KGgo"));
    assert!(capture_to_base64(Ok((Vec::new(), 0, 0))).unwrap_err().starts_with("Failed to encode to PNG: "));
}
