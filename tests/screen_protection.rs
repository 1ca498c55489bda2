use pluely::screen_protection::{
    affinity_error, disable_call, disable_screen_protection, enable_call,
    enable_screen_protection, ensure_screen_protection, is_protection_enabled, query_call,
    toggle_call, toggle_screen_protection, AffinityCall, Platform, WDA_EXCLUDEFROMCAPTURE,
    WDA_NONE,
};

/// A window attribute that obeys the calls it is given.
fn apply(affinity: &mut u32, call: Option<AffinityCall>) {
    if let Some(AffinityCall::SetAffinity { affinity: a, .. }) = call {
        *affinity = a;
    }
}

#[test]
fn affinity_error_embeds_code() {
    assert_eq!(affinity_error("ctx", 5), "ctx (win32 error code: 5)");
    assert_eq!(affinity_error("ctx", 0), "ctx (win32 error code: 0)");
    assert_eq!(affinity_error("", 4294967295), " (win32 error code: 4294967295)");
    assert_eq!(affinity_error("x", 1010), "x (win32 error code: 1010)");
}

#[test]
fn calls_on_supported_platform() {
    let p = Platform::Supported;
    assert_eq!(enable_call(p, 42), Some(AffinityCall::SetAffinity { hwnd: 42, affinity: 0x11 }));
    assert_eq!(disable_call(p, 42), Some(AffinityCall::SetAffinity { hwnd: 42, affinity: 0 }));
    assert_eq!(query_call(p, 42), Some(AffinityCall::GetAffinity { hwnd: 42 }));
    assert_eq!(toggle_call(p, &Ok(7), true), enable_call(p, 7));
    assert_eq!(toggle_call(p, &Ok(7), false), disable_call(p, 7));
    assert_eq!(toggle_call(p, &Err("no handle".to_string()), true), None);
    assert_eq!(toggle_call(Platform::Unsupported, &Ok(7), true), None);
}

#[test]
fn enable_then_query_reports_enabled() {
    let p = Platform::Supported;
    let mut attr = WDA_NONE;
    apply(&mut attr, enable_call(p, 1));
    assert_eq!(enable_screen_protection(Some(Ok(()))), Ok(()));
    assert_eq!(is_protection_enabled(Some(Ok(attr))), Ok(true));
    apply(&mut attr, disable_call(p, 1));
    assert_eq!(disable_screen_protection(Some(Ok(()))), Ok(()));
    assert_eq!(is_protection_enabled(Some(Ok(attr))), Ok(false));
}

#[test]
fn enable_twice_scenario() {
    let p = Platform::Supported;
    let mut attr = WDA_NONE;
    apply(&mut attr, enable_call(p, 9));
    assert_eq!(enable_screen_protection(Some(Ok(()))), Ok(()));
    apply(&mut attr, enable_call(p, 9));
    assert_eq!(enable_screen_protection(Some(Ok(()))), Ok(()));
    assert_eq!(attr, WDA_EXCLUDEFROMCAPTURE);
    assert_eq!(is_protection_enabled(Some(Ok(attr))), Ok(true));
}

#[test]
fn unsupported_platform_is_noop() {
    let p = Platform::Unsupported;
    assert_eq!(enable_call(p, 3), None);
    assert_eq!(disable_call(p, 3), None);
    assert_eq!(query_call(p, 3), None);
    assert_eq!(enable_screen_protection(None), Ok(()));
    assert_eq!(disable_screen_protection(None), Ok(()));
    assert_eq!(is_protection_enabled(None), Ok(false));
    assert!(ensure_screen_protection(p, &Ok(()), &Ok(false)).is_empty());
}

#[test]
fn failures_carry_code() {
    assert_eq!(
        enable_screen_protection(Some(Err(87))),
        Err("Failed to enable screen capture protection (win32 error code: 87)".to_string())
    );
    assert_eq!(
        disable_screen_protection(Some(Err(5))),
        Err("Failed to disable screen capture protection (win32 error code: 5)".to_string())
    );
    assert_eq!(
        is_protection_enabled(Some(Err(1400))),
        Err("Failed to read window display affinity (win32 error code: 1400)".to_string())
    );
    let p = Platform::Supported;
    assert_eq!(
        toggle_screen_protection(p, &Ok(4), false, Some(Err(2))),
        Err("Failed to disable screen capture protection (win32 error code: 2)".to_string())
    );
    assert_eq!(toggle_screen_protection(p, &Ok(4), true, Some(Ok(()))), Ok(()));
    assert_eq!(
        toggle_screen_protection(p, &Err("gone".to_string()), true, None),
        Err("Failed to access window handle: gone".to_string())
    );
    assert_eq!(
        toggle_screen_protection(Platform::Unsupported, &Err("gone".to_string()), true, None),
        Ok(())
    );
    assert_eq!(is_protection_enabled(Some(Ok(3))), Ok(false));
}

#[test]
fn ensure_reports() {
    let p = Platform::Supported;
    assert_eq!(
        ensure_screen_protection(p, &Ok(()), &Ok(true)),
        vec!["✅ Screen capture protection enabled".to_string()]
    );
    let note = "   This feature requires Windows 10 build 19041+ or Windows 11".to_string();
    assert_eq!(
        ensure_screen_protection(p, &Err("boom".to_string()), &Ok(true)),
        vec!["⚠️ Failed to enable screen protection: boom".to_string(), note.clone()]
    );
    assert_eq!(
        ensure_screen_protection(p, &Ok(()), &Ok(false)),
        vec!["Screen capture protection is not active after enabling it".to_string(), note.clone()]
    );
    assert_eq!(
        ensure_screen_protection(p, &Ok(()), &Err("bad".to_string())),
        vec!["Failed to verify screen protection: bad".to_string(), note]
    );
}
