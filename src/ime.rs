//! Decisions about text composition by an input method (IME), from the signals
//! that the platform layer gathers.
use vstd::prelude::*;

verus! {

/// Composition string changed.
pub const EVENT_OBJECT_IME_CHANGE: u32 = 0x8016;

/// Input-method window shown.
pub const EVENT_OBJECT_IME_SHOW: u32 = 0x8017;

/// Input-method window hidden: composition confirmed or cancelled.
pub const EVENT_OBJECT_IME_HIDE: u32 = 0x8018;

/// Whether `pat` occurs in `s` as a contiguous run of characters.
pub open spec fn occurs_in(pat: Seq<char>, s: Seq<char>) -> bool {
    exists|i: int| 0 <= i && i + pat.len() <= s.len() && #[trigger] s.subrange(i, i + pat.len()) == pat
}

/// Relies on `str::contains` with a `&str` pattern: true exactly when `pat` occurs
/// in `s` as a substring.
#[verifier::external_body]
fn str_contains(s: &str, pat: &str) -> (r: bool)
    ensures
        r == occurs_in(pat@, s@),
{
    s.contains(pat)
}

/// Composition flag after a platform event: set when composition starts or
/// changes, cleared when it ends, kept on any other event.
pub open spec fn ime_event_spec(active: bool, event: u32) -> bool {
    if event == EVENT_OBJECT_IME_SHOW || event == EVENT_OBJECT_IME_CHANGE {
        true
    } else if event == EVENT_OBJECT_IME_HIDE {
        false
    } else {
        active
    }
}

/// Follows one platform event with the composition flag.
pub fn ime_active_after_event(active: bool, event: u32) -> (r: bool)
    ensures
        r == ime_event_spec(active, event),
{
    if event == EVENT_OBJECT_IME_SHOW || event == EVENT_OBJECT_IME_CHANGE {
        true
    } else if event == EVENT_OBJECT_IME_HIDE {
        false
    } else {
        active
    }
}

/// The verdict on the three composition signals.
#[derive(Clone, Copy, Debug, PartialEq, Eq, Structural)]
pub struct ImeVerdict {
    /// Text is being composed.
    pub composing: bool,
    /// The event flag claims composition that no window confirms: it is stale.
    pub clear_stale_flag: bool,
}

/// Combines the event flag with the two window checks. A flag that neither window
/// check confirms is stale (a missed end event) and does not count.
pub fn resolve_ime_signals(winevent_active: bool, enumwindows_active: bool, uia_active: bool) -> (r:
    ImeVerdict)
    ensures
        r.clear_stale_flag == (winevent_active && !enumwindows_active && !uia_active),
        r.composing == (enumwindows_active || uia_active),
{
    if winevent_active && !enumwindows_active && !uia_active {
        return ImeVerdict { composing: false, clear_stale_flag: true };
    }
    ImeVerdict {
        composing: winevent_active || enumwindows_active || uia_active,
        clear_stale_flag: false,
    }
}

fn str_equal(a: &str, b: &str) -> (r: bool)
    ensures
        r == (a@ == b@),
{
    if a.unicode_len() != b.unicode_len() {
        return false;
    }
    let r = str_contains(a, b);
    proof {
        if r {
            let i = choose|i: int|
                0 <= i && i + b@.len() <= a@.len() && #[trigger] a@.subrange(i, i + b@.len())
                    == b@;
            assert(a@.len() == b@.len());
            assert(i == 0);
            assert(a@.subrange(0, a@.len() as int) =~= a@);
        } else {
            assert(a@.len() == b@.len());
            assert(a@.subrange(0, b@.len() as int) =~= a@);
            if a@ == b@ {
                assert(a@.subrange(0, 0 + b@.len() as int) == b@);
                assert(occurs_in(b@, a@));
            }
        }
    }
    r
}

/// Whether a top-level window class belongs to an input method's candidate list.
/// The language bar ("MSCTFIME UI"), always visible, does not count.
pub fn is_ime_candidate_class(class_name: &str) -> (r: bool)
    ensures
        r == (occurs_in("CandidateUI"@, class_name@) || class_name@ == "IME"@ || occurs_in(
            "Candidate"@,
            class_name@,
        )),
{
    str_contains(class_name, "CandidateUI") || str_equal(class_name, "IME") || str_contains(
        class_name,
        "Candidate",
    )
}

/// Whether the focused element, by its class name or its name (when they could be
/// read), is an input method's candidate list.
pub fn is_ime_focus_element(class_name: Option<&str>, name: Option<&str>) -> (r: bool)
    ensures
        r == ((class_name matches Some(c) && (occurs_in("Candidate"@, c@) || occurs_in(
            "Ime"@,
            c@,
        ))) || (name matches Some(n) && occurs_in("\u{5019}\u{88dc}"@, n@))),
{
    let found = match class_name {
        Some(c) => str_contains(c, "Candidate") || str_contains(c, "Ime"),
        None => false,
    };
    if found {
        return true;
    }
    match name {
        Some(n) => str_contains(n, "\u{5019}\u{88dc}"),
        None => false,
    }
}

} // verus!
