use pluely::greet;
use pluely::screen_protection::window_handle_error;

#[test]
fn greet_names() {
    assert_eq!(greet("Ada"), "Hello, Ada! You've been greeted from Rust!");
    assert_eq!(greet(""), "Hello, ! You've been greeted from Rust!");
}

#[test]
fn window_handle_error_text() {
    assert_eq!(window_handle_error("gone"), "Failed to access window handle: gone");
}
