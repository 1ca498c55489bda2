use vstd::prelude::*;

verus! {

/// A registry entry as plain values: action identifier, then shortcut string.
pub type EntryView = (Seq<char>, Seq<char>);

/// The view of a list of entries.
pub open spec fn entries_view(v: Seq<(String, String)>) -> Seq<EntryView> {
    v.map_values(|e: (String, String)| (e.0@, e.1@))
}

/// No two entries share an action identifier.
pub open spec fn keys_unique(s: Seq<EntryView>) -> bool {
    forall|i: int, j: int|
        0 <= i < s.len() && 0 <= j < s.len() && i != j ==> #[trigger] s[i].0 != #[trigger] s[j].0
}

/// The mapping that a list of entries with unique keys stands for.
pub open spec fn as_mapping(s: Seq<EntryView>) -> Map<Seq<char>, Seq<char>> {
    Map::new(
        |k: Seq<char>| exists|i: int| 0 <= i < s.len() && s[i].0 == k,
        |k: Seq<char>| s[choose|i: int| 0 <= i < s.len() && s[i].0 == k].1,
    )
}

/// The key combination that global_hotkey parses a shortcut string into,
/// as the packed id of its modifiers and key; `None` where parsing fails.
/// `CommandOrControl` reads as Super on macOS and as Control elsewhere, so
/// this stands for the parser of the target the crate is built for.
pub uninterp spec fn shortcut_id(s: Seq<char>) -> Option<u32>;

/// Relies on global_hotkey's `FromStr for HotKey` to parse a shortcut
/// string, and on `HotKey::id`, which packs the modifiers and the key into
/// one `u32`: two parsed hotkeys are equal exactly when their ids are.
#[verifier::external_body]
fn parse_shortcut(s: &str) -> (r: Option<u32>)
    ensures
        r == shortcut_id(s@),
{
    s.parse::<global_hotkey::hotkey::HotKey>().ok().map(|h| h.id())
}

/// Whether a shortcut string parses into a key combination; nothing is
/// registered.
pub fn validate_shortcut_key(s: &str) -> (r: bool)
    ensures
        r == shortcut_id(s@).is_some(),
{
    parse_shortcut(s).is_some()
}

/// Whether a key event is a press or a release.
#[derive(Clone, Copy, Debug, PartialEq, Eq, Structural)]
pub enum ShortcutState {
    Pressed,
    Released,
}

/// A key event from the input subsystem: the packed id of the key
/// combination (as `HotKey::id` gives it) and whether it was pressed.
#[derive(Clone, Copy, Debug, PartialEq, Eq, Structural)]
pub struct ShortcutEvent {
    pub shortcut: u32,
    pub state: ShortcutState,
}

/// Index `k` holds the pressed combination, and no earlier index does.
pub open spec fn is_first_match(parsed: Seq<Option<u32>>, pressed: u32, k: int) -> bool {
    &&& 0 <= k < parsed.len()
    &&& parsed[k] == Some(pressed)
    &&& forall|j: int| 0 <= j < k ==> parsed[j] != Some(pressed)
}

/// The first index whose parsed combination is the pressed one.
pub open spec fn first_match(parsed: Seq<Option<u32>>, pressed: u32) -> Option<int> {
    if exists|k: int| is_first_match(parsed, pressed, k) {
        Some(choose|k: int| is_first_match(parsed, pressed, k))
    } else {
        None
    }
}

/// The parsed combination of each entry's shortcut string.
pub open spec fn parsed_ids(s: Seq<EntryView>) -> Seq<Option<u32>> {
    s.map_values(|e: EntryView| shortcut_id(e.1))
}

/// The action that an event triggers: on a press, the action of the first
/// entry whose shortcut string parses into the pressed combination; on a
/// release, none.
pub open spec fn dispatch_view(s: Seq<EntryView>, event: ShortcutEvent) -> Option<Seq<char>> {
    if event.state == ShortcutState::Released {
        None
    } else {
        match first_match(parsed_ids(s), event.shortcut) {
            Some(k) => Some(s[k].0),
            None => None,
        }
    }
}

/// An optional index as an integer.
pub open spec fn opt_index(r: Option<usize>) -> Option<int> {
    match r {
        Some(k) => Some(k as int),
        None => None,
    }
}

/// An optional string as plain text.
pub open spec fn opt_string(r: Option<String>) -> Option<Seq<char>> {
    match r {
        Some(s) => Some(s@),
        None => None,
    }
}

/// At most one index is the first match.
pub proof fn lemma_first_match_unique(parsed: Seq<Option<u32>>, pressed: u32, k: int)
    requires
        is_first_match(parsed, pressed, k),
    ensures
        first_match(parsed, pressed) == Some(k),
{
    let c = choose|c: int| is_first_match(parsed, pressed, c);
    assert(is_first_match(parsed, pressed, c));
    if c < k {
        assert(parsed[c] != Some(pressed));
    } else if k < c {
        assert(parsed[k] != Some(pressed));
    }
}

/// Given the parsed combination of each entry (`None` where a string did not
/// parse), the index of the first one that is the pressed combination.
pub fn first_matching(parsed: &Vec<Option<u32>>, pressed: u32) -> (r: Option<usize>)
    ensures
        opt_index(r) == first_match(parsed@, pressed),
{
    let mut i: usize = 0;
    while i < parsed.len()
        invariant
            i <= parsed@.len(),
            forall|j: int| 0 <= j < i ==> parsed@[j] != Some(pressed),
        decreases parsed@.len() - i,
    {
        if parsed[i] == Some(pressed) {
            proof {
                lemma_first_match_unique(parsed@, pressed, i as int);
            }
            return Some(i);
        }
        i = i + 1;
    }
    assert(!exists|k: int| is_first_match(parsed@, pressed, k));
    None
}

/// Whether no two entries share an action identifier.
pub fn has_unique_keys(entries: &Vec<(String, String)>) -> (r: bool)
    ensures
        r == keys_unique(entries_view(entries@)),
{
    let ghost s = entries_view(entries@);
    let mut i: usize = 0;
    while i < entries.len()
        invariant
            s == entries_view(entries@),
            i <= entries@.len(),
            forall|p: int, q: int| 0 <= p < q < i ==> s[p].0 != s[q].0,
        decreases entries@.len() - i,
    {
        let mut j: usize = 0;
        while j < i
            invariant
                s == entries_view(entries@),
                i < entries@.len(),
                j <= i,
                forall|p: int, q: int| 0 <= p < q < i ==> s[p].0 != s[q].0,
                forall|p: int| 0 <= p < j ==> s[p].0 != s[i as int].0,
            decreases i - j,
        {
            if entries[j].0 == entries[i].0 {
                assert(s[j as int].0 == s[i as int].0);
                return false;
            }
            j = j + 1;
        }
        i = i + 1;
    }
    assert forall|p: int, q: int|
        0 <= p < s.len() && 0 <= q < s.len() && p != q implies #[trigger] s[p].0 != #[trigger] s[q].0 by {
        if p < q {
            assert(s[p].0 != s[q].0);
        } else {
            assert(s[q].0 != s[p].0);
        }
    }
    true
}

/// Mapping from action identifier to shortcut string. Keys are unique; the
/// order of the entries decides which action wins when two share a shortcut.
pub struct ShortcutRegistry {
    entries: Vec<(String, String)>,
}

impl View for ShortcutRegistry {
    type V = Seq<EntryView>;

    closed spec fn view(&self) -> Seq<EntryView> {
        entries_view(self.entries@)
    }
}

impl ShortcutRegistry {
    /// Action identifiers are unique.
    pub open spec fn wf(&self) -> bool {
        keys_unique(self@)
    }

    /// An empty registry.
    pub fn new() -> (r: ShortcutRegistry)
        ensures
            r.wf(),
            r@ == Seq::<EntryView>::empty(),
    {
        let r = ShortcutRegistry { entries: Vec::new() };
        assert(r@ =~= Seq::<EntryView>::empty());
        r
    }

    /// Replaces the whole set of registered shortcuts at once.
    pub fn update(&mut self, entries: Vec<(String, String)>)
        requires
            keys_unique(entries_view(entries@)),
        ensures
            final(self).wf(),
            final(self)@ == entries_view(entries@),
    {
        self.entries = entries;
    }

    /// Replaces the registered shortcuts only where no action identifier is
    /// listed twice; otherwise leaves the previous mapping in place. Returns
    /// whether the mapping was replaced.
    pub fn try_update(&mut self, entries: Vec<(String, String)>) -> (r: bool)
        requires
            old(self).wf(),
        ensures
            final(self).wf(),
            r == keys_unique(entries_view(entries@)),
            r ==> final(self)@ == entries_view(entries@),
            !r ==> final(self)@ == old(self)@,
    {
        if has_unique_keys(&entries) {
            self.update(entries);
            true
        } else {
            false
        }
    }

    /// A point-in-time copy of the registered entries.
    pub fn snapshot(&self) -> (r: Vec<(String, String)>)
        ensures
            entries_view(r@) == self@,
    {
        let mut r: Vec<(String, String)> = Vec::new();
        let mut i: usize = 0;
        while i < self.entries.len()
            invariant
                i <= self.entries@.len(),
                entries_view(r@) =~= self@.subrange(0, i as int),
            decreases self.entries@.len() - i,
        {
            let a = self.entries[i].0.clone();
            let s = self.entries[i].1.clone();
            let ghost before = r@;
            r.push((a, s));
            assert(entries_view(r@) =~= entries_view(before).push(self@[i as int]));
            i = i + 1;
        }
        assert(self@.subrange(0, i as int) =~= self@);
        r
    }

    /// The action that a key event triggers: on a press, the first entry
    /// whose shortcut string parses into the pressed combination; strings
    /// that do not parse are skipped; a release triggers nothing.
    pub fn dispatch(&self, event: ShortcutEvent) -> (r: Option<String>)
        ensures
            opt_string(r) == dispatch_view(self@, event),
    {
        if event.state == ShortcutState::Released {
            return None;
        }
        let mut parsed: Vec<Option<u32>> = Vec::new();
        let mut i: usize = 0;
        while i < self.entries.len()
            invariant
                i <= self.entries@.len(),
                parsed@ =~= parsed_ids(self@).subrange(0, i as int),
            decreases self.entries@.len() - i,
        {
            let p = parse_shortcut(self.entries[i].1.as_str());
            parsed.push(p);
            i = i + 1;
        }
        assert(parsed@ =~= parsed_ids(self@));
        match first_matching(&parsed, event.shortcut) {
            Some(k) => Some(self.entries[k].0.clone()),
            None => None,
        }
    }
}

/// The main window's last intended visibility; hidden is `false` at start.
pub struct WindowVisibility {
    pub is_hidden: bool,
}

impl WindowVisibility {
    /// A visible window.
    pub fn new() -> (r: WindowVisibility)
        ensures
            !r.is_hidden,
    {
        WindowVisibility { is_hidden: false }
    }

    /// Records that the window is hidden or shown.
    pub fn set_hidden(&mut self, hidden: bool)
        ensures
            final(self).is_hidden == hidden,
    {
        self.is_hidden = hidden;
    }

    /// Flips the flag and returns whether the window is now hidden.
    pub fn toggle(&mut self) -> (r: bool)
        ensures
            final(self).is_hidden == !old(self).is_hidden,
            r == final(self).is_hidden,
    {
        self.is_hidden = !self.is_hidden;
        self.is_hidden
    }
}

/// The action identifier that flips the window's visibility.
pub open spec fn toggle_visibility_id() -> Seq<char> {
    "toggle-visibility"@
}

/// Runs the part of an action that concerns this state: the
/// visibility toggle flips the flag. Returns whether the action was handled
/// here; any other action is left to the application and changes nothing.
pub fn handle_shortcut_action(visibility: &mut WindowVisibility, action_id: &str) -> (r: bool)
    ensures
        r == (action_id@ == toggle_visibility_id()),
        r ==> final(visibility).is_hidden == !old(visibility).is_hidden,
        !r ==> final(visibility).is_hidden == old(visibility).is_hidden,
{
    let toggle = "toggle-visibility".to_owned();
    if action_id.to_owned() == toggle {
        visibility.toggle();
        true
    } else {
        false
    }
}

/// Dispatches a key event and runs the action it triggers; returns that
/// action's identifier.
pub fn on_shortcut_event(
    registry: &ShortcutRegistry,
    visibility: &mut WindowVisibility,
    event: ShortcutEvent,
) -> (r: Option<String>)
    ensures
        opt_string(r) == dispatch_view(registry@, event),
        r is Some && r->0@ == toggle_visibility_id() ==> final(visibility).is_hidden
            == !old(visibility).is_hidden,
        !(r is Some && r->0@ == toggle_visibility_id()) ==> final(visibility).is_hidden
            == old(visibility).is_hidden,
{
    let action = registry.dispatch(event);
    match &action {
        Some(a) => {
            handle_shortcut_action(visibility, a.as_str());
        },
        None => {},
    }
    action
}

/// With unique keys, each entry's action identifier maps to its shortcut
/// string, and the mapping holds no other key: what `update` stores and
/// `snapshot` returns is exactly the mapping that was given.
pub proof fn law_entries_are_the_mapping(s: Seq<EntryView>)
    requires
        keys_unique(s),
    ensures
        forall|i: int|
            0 <= i < s.len() ==> #[trigger] as_mapping(s).contains_key(s[i].0) && as_mapping(
                s,
            )[s[i].0] == s[i].1,
        forall|k: Seq<char>|
            #[trigger] as_mapping(s).contains_key(k) ==> exists|i: int| 0 <= i < s.len() && s[i].0 == k,
{
    assert forall|i: int| 0 <= i < s.len() implies #[trigger] as_mapping(s).contains_key(s[i].0)
        && as_mapping(s)[s[i].0] == s[i].1 by {
        let k = s[i].0;
        assert(exists|j: int| 0 <= j < s.len() && s[j].0 == k);
        let c = choose|j: int| 0 <= j < s.len() && s[j].0 == k;
        assert(c == i);
    }
}

/// A press of a combination that exactly one entry's shortcut string parses
/// into triggers that entry's action, and only it; its release triggers
/// nothing.
pub proof fn law_press_fires_only_its_action(s: Seq<EntryView>, k: int, pressed: u32)
    requires
        keys_unique(s),
        0 <= k < s.len(),
        shortcut_id(s[k].1) == Some(pressed),
        forall|j: int| 0 <= j < s.len() && j != k ==> shortcut_id(#[trigger] s[j].1) != Some(pressed),
    ensures
        dispatch_view(s, ShortcutEvent { shortcut: pressed, state: ShortcutState::Pressed }) == Some(
            s[k].0,
        ),
        dispatch_view(s, ShortcutEvent { shortcut: pressed, state: ShortcutState::Released })
            is None,
{
    let p = parsed_ids(s);
    assert(forall|j: int| 0 <= j < k ==> p[j] == shortcut_id(s[j].1));
    assert(is_first_match(p, pressed, k));
    lemma_first_match_unique(p, pressed, k);
}

/// A shortcut string that does not parse never triggers its entry's action,
/// whatever the event.
pub proof fn law_malformed_never_fires(s: Seq<EntryView>, k: int, event: ShortcutEvent)
    requires
        keys_unique(s),
        0 <= k < s.len(),
        shortcut_id(s[k].1) is None,
    ensures
        dispatch_view(s, event) != Some(s[k].0),
{
    let p = parsed_ids(s);
    if event.state == ShortcutState::Pressed {
        match first_match(p, event.shortcut) {
            Some(m) => {
                assert(is_first_match(p, event.shortcut, m));
                assert(p[m] == shortcut_id(s[m].1));
                assert(m != k);
                assert(s[m].0 != s[k].0);
            },
            None => {},
        }
    }
}

} // verus!
