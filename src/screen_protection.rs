use vstd::prelude::*;

verus! {

/// The display affinity of a window with no capture restriction.
pub const WDA_NONE: u32 = 0;

/// The display affinity that leaves a window out of screen capture.
pub const WDA_EXCLUDEFROMCAPTURE: u32 = 0x11;

/// Whether the platform offers the window capture-exclusion attribute.
#[derive(Clone, Copy, Debug, PartialEq, Eq, Structural)]
pub enum Platform {
    Supported,
    Unsupported,
}

/// A call on a window's display-affinity attribute that the application
/// makes on behalf of the guard.
#[derive(Clone, Copy, Debug, PartialEq, Eq, Structural)]
pub enum AffinityCall {
    SetAffinity { hwnd: isize, affinity: u32 },
    GetAffinity { hwnd: isize },
}

/// The call that enabling protection needs; none where the platform lacks the
/// feature.
pub open spec fn enable_call_view(platform: Platform, hwnd: isize) -> Option<AffinityCall> {
    if platform == Platform::Supported {
        Some(AffinityCall::SetAffinity { hwnd, affinity: WDA_EXCLUDEFROMCAPTURE })
    } else {
        None
    }
}

/// The call that disabling protection needs; none where the platform lacks
/// the feature.
pub open spec fn disable_call_view(platform: Platform, hwnd: isize) -> Option<AffinityCall> {
    if platform == Platform::Supported {
        Some(AffinityCall::SetAffinity { hwnd, affinity: WDA_NONE })
    } else {
        None
    }
}

/// The call that reading the protection state needs; none where the
/// platform lacks the feature.
pub open spec fn query_call_view(platform: Platform, hwnd: isize) -> Option<AffinityCall> {
    if platform == Platform::Supported {
        Some(AffinityCall::GetAffinity { hwnd })
    } else {
        None
    }
}

/// The call that enabling protection needs.
pub fn enable_call(platform: Platform, hwnd: isize) -> (r: Option<AffinityCall>)
    ensures
        r == enable_call_view(platform, hwnd),
{
    match platform {
        Platform::Supported => Some(AffinityCall::SetAffinity { hwnd, affinity: WDA_EXCLUDEFROMCAPTURE }),
        Platform::Unsupported => None,
    }
}

/// The call that disabling protection needs.
pub fn disable_call(platform: Platform, hwnd: isize) -> (r: Option<AffinityCall>)
    ensures
        r == disable_call_view(platform, hwnd),
{
    match platform {
        Platform::Supported => Some(AffinityCall::SetAffinity { hwnd, affinity: WDA_NONE }),
        Platform::Unsupported => None,
    }
}

/// The call that reading the protection state needs.
pub fn query_call(platform: Platform, hwnd: isize) -> (r: Option<AffinityCall>)
    ensures
        r == query_call_view(platform, hwnd),
{
    match platform {
        Platform::Supported => Some(AffinityCall::GetAffinity { hwnd }),
        Platform::Unsupported => None,
    }
}

/// The call that a toggle request needs, given what asking the window for
/// its native handle returned: none where that failed.
pub fn toggle_call(platform: Platform, hwnd: &Result<isize, String>, enabled: bool) -> (r: Option<
    AffinityCall,
>)
    ensures
        r == match hwnd {
            Ok(h) => if enabled {
                enable_call_view(platform, *h)
            } else {
                disable_call_view(platform, *h)
            },
            Err(_) => None,
        },
{
    match hwnd {
        Ok(h) => if enabled {
            enable_call(platform, *h)
        } else {
            disable_call(platform, *h)
        },
        Err(_) => None,
    }
}

/// The character of a decimal digit.
pub open spec fn digit_char(d: nat) -> char {
    "0123456789"@[d as int]
}

/// The decimal representation of a natural number, without leading zeros.
pub open spec fn decimal(n: nat) -> Seq<char>
    decreases n,
{
    if n < 10 {
        seq![digit_char(n)]
    } else {
        decimal(n / 10) + seq![digit_char(n % 10)]
    }
}

fn digit_str(d: u32) -> (r: &'static str)
    requires
        d < 10,
    ensures
        r@ == seq![digit_char(d as nat)],
{
    proof {
        reveal_strlit("0123456789");
    }
    let r = if d == 0 {
        "0"
    } else if d == 1 {
        "1"
    } else if d == 2 {
        "2"
    } else if d == 3 {
        "3"
    } else if d == 4 {
        "4"
    } else if d == 5 {
        "5"
    } else if d == 6 {
        "6"
    } else if d == 7 {
        "7"
    } else if d == 8 {
        "8"
    } else {
        "9"
    };
    proof {
        reveal_strlit("0");
        reveal_strlit("1");
        reveal_strlit("2");
        reveal_strlit("3");
        reveal_strlit("4");
        reveal_strlit("5");
        reveal_strlit("6");
        reveal_strlit("7");
        reveal_strlit("8");
        reveal_strlit("9");
        assert(r@ =~= seq![digit_char(d as nat)]);
    }
    r
}

fn push_decimal(s: &mut String, n: u32)
    ensures
        final(s)@ == old(s)@ + decimal(n as nat),
    decreases n,
{
    if n >= 10 {
        push_decimal(s, n / 10);
    }
    s.append(digit_str(n % 10));
    assert(s@ =~= old(s)@ + decimal(n as nat));
}

/// The message when the window's native handle cannot be had.
pub open spec fn window_handle_message(e: Seq<char>) -> Seq<char> {
    "Failed to access window handle: "@ + e
}

/// Describes a failure to get the window's native handle.
pub fn window_handle_error(e: &str) -> (r: String)
    ensures
        r@ == window_handle_message(e@),
{
    let mut s = "Failed to access window handle: ".to_owned();
    s.append(e);
    s
}

/// The message of a failed attribute call: the context, then the OS error
/// code.
pub open spec fn affinity_message(context: Seq<char>, code: u32) -> Seq<char> {
    context + " (win32 error code: "@ + decimal(code as nat) + ")"@
}

/// Describes a failed attribute call with the OS error code it left.
pub fn affinity_error(context: &str, code: u32) -> (r: String)
    ensures
        r@ == affinity_message(context@, code),
{
    let mut s = context.to_owned();
    s.append(" (win32 error code: ");
    push_decimal(&mut s, code);
    s.append(")");
    assert(s@ =~= affinity_message(context@, code));
    s
}

/// A unit result with its message as plain text.
pub open spec fn unit_result_view(r: Result<(), String>) -> Result<(), Seq<char>> {
    match r {
        Ok(()) => Ok(()),
        Err(e) => Err(e@),
    }
}

/// A boolean result with its message as plain text.
pub open spec fn bool_result_view(r: Result<bool, String>) -> Result<bool, Seq<char>> {
    match r {
        Ok(b) => Ok(b),
        Err(e) => Err(e@),
    }
}

/// What a caller is told of a set call: success where no call was needed or
/// it succeeded; otherwise the context with the OS error code.
pub open spec fn set_outcome(context: Seq<char>, reply: Option<Result<(), u32>>) -> Result<
    (),
    Seq<char>,
> {
    match reply {
        Some(Err(code)) => Err(affinity_message(context, code)),
        _ => Ok(()),
    }
}

/// What a caller is told of a query: `false` where the platform lacks the
/// feature, whether the attribute read back is the exclusion value, or the
/// failure with its OS error code.
pub open spec fn query_outcome(reply: Option<Result<u32, u32>>) -> Result<bool, Seq<char>> {
    match reply {
        None => Ok(false),
        Some(Ok(affinity)) => Ok(affinity == WDA_EXCLUDEFROMCAPTURE),
        Some(Err(code)) => Err(affinity_message(query_context(), code)),
    }
}

pub open spec fn enable_context() -> Seq<char> {
    "Failed to enable screen capture protection"@
}

pub open spec fn disable_context() -> Seq<char> {
    "Failed to disable screen capture protection"@
}

pub open spec fn query_context() -> Seq<char> {
    "Failed to read window display affinity"@
}

fn set_result(context: &str, reply: Option<Result<(), u32>>) -> (r: Result<(), String>)
    ensures
        unit_result_view(r) == set_outcome(context@, reply),
{
    match reply {
        Some(Err(code)) => Err(affinity_error(context, code)),
        _ => Ok(()),
    }
}

/// The result of enabling protection, given the reply to `enable_call`
/// (`None` where no call was needed, else the call's success or its OS error
/// code).
pub fn enable_screen_protection(reply: Option<Result<(), u32>>) -> (r: Result<(), String>)
    ensures
        unit_result_view(r) == set_outcome(enable_context(), reply),
{
    set_result("Failed to enable screen capture protection", reply)
}

/// The result of disabling protection, given the reply to `disable_call`.
pub fn disable_screen_protection(reply: Option<Result<(), u32>>) -> (r: Result<(), String>)
    ensures
        unit_result_view(r) == set_outcome(disable_context(), reply),
{
    set_result("Failed to disable screen capture protection", reply)
}

/// What a toggle request reports: success where the platform lacks the
/// feature; the handle error where the window's native handle could not be
/// had (no call was made); else the outcome of the set call.
pub open spec fn toggle_outcome(
    platform: Platform,
    hwnd: Result<isize, Seq<char>>,
    enabled: bool,
    reply: Option<Result<(), u32>>,
) -> Result<(), Seq<char>> {
    if platform == Platform::Unsupported {
        Ok(())
    } else {
        match hwnd {
            Err(e) => Err(window_handle_message(e)),
            Ok(_) => set_outcome(
                if enabled {
                    enable_context()
                } else {
                    disable_context()
                },
                reply,
            ),
        }
    }
}

/// A handle result with its message as plain text.
pub open spec fn handle_view(hwnd: Result<isize, String>) -> Result<isize, Seq<char>> {
    match hwnd {
        Ok(h) => Ok(h),
        Err(e) => Err(e@),
    }
}

/// The result of a toggle request, given what asking the window for its
/// native handle returned and the reply to `toggle_call`.
pub fn toggle_screen_protection(
    platform: Platform,
    hwnd: &Result<isize, String>,
    enabled: bool,
    reply: Option<Result<(), u32>>,
) -> (r: Result<(), String>)
    ensures
        unit_result_view(r) == toggle_outcome(platform, handle_view(*hwnd), enabled, reply),
{
    if platform == Platform::Unsupported {
        return Ok(());
    }
    match hwnd {
        Err(e) => Err(window_handle_error(e.as_str())),
        Ok(_) => if enabled {
            enable_screen_protection(reply)
        } else {
            disable_screen_protection(reply)
        },
    }
}

/// Whether protection is on, given the reply to `query_call` (`None` where no
/// call was needed, else the affinity read back or the OS error code).
pub fn is_protection_enabled(reply: Option<Result<u32, u32>>) -> (r: Result<bool, String>)
    ensures
        bool_result_view(r) == query_outcome(reply),
{
    match reply {
        None => Ok(false),
        Some(Ok(affinity)) => Ok(affinity == WDA_EXCLUDEFROMCAPTURE),
        Some(Err(code)) => Err(affinity_error("Failed to read window display affinity", code)),
    }
}

/// The likely cause of a failure: the OS version.
pub open spec fn requirement_note() -> Seq<char> {
    "   This feature requires Windows 10 build 19041+ or Windows 11"@
}

/// The diagnostics of the check made when a window is created: nothing where
/// the platform lacks the feature; a confirmation where enabling succeeded
/// and the attribute reads back as set; otherwise what failed, then the
/// likely cause. Startup goes on in every case.
pub open spec fn ensure_report(
    platform: Platform,
    enabled: Result<(), Seq<char>>,
    verified: Result<bool, Seq<char>>,
) -> Seq<Seq<char>> {
    if platform == Platform::Unsupported {
        seq![]
    } else {
        match enabled {
            Err(e) => seq!["⚠️ Failed to enable screen protection: "@ + e, requirement_note()],
            Ok(()) => match verified {
                Ok(true) => seq!["✅ Screen capture protection enabled"@],
                Ok(false) => seq![
                    "Screen capture protection is not active after enabling it"@,
                    requirement_note(),
                ],
                Err(e) => seq!["Failed to verify screen protection: "@ + e, requirement_note()],
            },
        }
    }
}

/// A list of strings as plain text.
pub open spec fn strings_view(v: Seq<String>) -> Seq<Seq<char>> {
    v.map_values(|s: String| s@)
}

/// The diagnostics to report after enabling protection at window creation,
/// given the result of `enable_screen_protection` and of the
/// `is_protection_enabled` check that follows it.
pub fn ensure_screen_protection(
    platform: Platform,
    enabled: &Result<(), String>,
    verified: &Result<bool, String>,
) -> (r: Vec<String>)
    ensures
        strings_view(r@) == ensure_report(
            platform,
            unit_result_view(*enabled),
            bool_result_view(*verified),
        ),
{
    let mut r: Vec<String> = Vec::new();
    if platform == Platform::Unsupported {
        assert(strings_view(r@) =~= ensure_report(
            platform,
            unit_result_view(*enabled),
            bool_result_view(*verified),
        ));
        return r;
    }
    let mut needs_note = true;
    match enabled {
        Err(e) => {
            let mut m = "⚠️ Failed to enable screen protection: ".to_owned();
            m.append(e.as_str());
            r.push(m);
        },
        Ok(()) => match verified {
            Ok(true) => {
                r.push("✅ Screen capture protection enabled".to_owned());
                needs_note = false;
            },
            Ok(false) => {
                r.push("Screen capture protection is not active after enabling it".to_owned());
            },
            Err(e) => {
                let mut m = "Failed to verify screen protection: ".to_owned();
                m.append(e.as_str());
                r.push(m);
            },
        },
    }
    if needs_note {
        r.push("   This feature requires Windows 10 build 19041+ or Windows 11".to_owned());
    }
    assert(strings_view(r@) =~= ensure_report(
        platform,
        unit_result_view(*enabled),
        bool_result_view(*verified),
    ));
    r
}

/// The display affinity of a window after a call that succeeded: a set call
/// leaves the value it set, a read changes nothing.
pub open spec fn affinity_after(affinity: u32, call: Option<AffinityCall>) -> u32 {
    match call {
        Some(AffinityCall::SetAffinity { affinity: a, .. }) => a,
        _ => affinity,
    }
}

/// On a supported platform, once enabling has succeeded, reading the
/// attribute back reports protection on; once disabling has succeeded, it
/// reports it off; enabling again succeeds and leaves the attribute as it
/// was.
pub proof fn law_enable_then_query(hwnd: isize, affinity: u32)
    ensures
        ({
            let on = affinity_after(affinity, enable_call_view(Platform::Supported, hwnd));
            &&& set_outcome(enable_context(), Some(Ok(()))) == Ok::<(), Seq<char>>(())
            &&& query_outcome(Some(Ok(on))) == Ok::<bool, Seq<char>>(true)
            &&& affinity_after(on, enable_call_view(Platform::Supported, hwnd)) == on
        }),
        query_outcome(
            Some(Ok(affinity_after(affinity, disable_call_view(Platform::Supported, hwnd)))),
        ) == Ok::<bool, Seq<char>>(false),
{
}

/// Where the platform lacks the feature, no call is made, enabling and
/// disabling succeed, and protection always reads as off.
pub proof fn law_unsupported_is_noop(hwnd: isize)
    ensures
        enable_call_view(Platform::Unsupported, hwnd) is None,
        disable_call_view(Platform::Unsupported, hwnd) is None,
        query_call_view(Platform::Unsupported, hwnd) is None,
        set_outcome(enable_context(), None) == Ok::<(), Seq<char>>(()),
        set_outcome(disable_context(), None) == Ok::<(), Seq<char>>(()),
        query_outcome(None) == Ok::<bool, Seq<char>>(false),
{
}

} // verus!
