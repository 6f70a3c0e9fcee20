//! Window candidates and the switching session.
//!
//! A window is known here only by its plain attributes: an opaque numeric
//! handle and the per-window facts the OS reports (visibility, title text,
//! class name, style bits, owning process).  The enumeration filter turns an
//! OS snapshot of such attributes into an ordered candidate list, and the
//! [`WindowManager`] state machine cycles a selection through that list for
//! the length of one chord-down-to-chord-up session.

use vstd::prelude::*;

verus! {

/// Direction of one switching command.  `Left` and `Right` are the wired
/// "previous" and "next" directions; `Up` and `Down` are accepted in the
/// command vocabulary but move nothing, because candidates form a flat list.
#[derive(Debug, Clone, Copy, PartialEq, Eq, Structural)]
pub enum Direction {
    Left,
    Right,
    Up,
    Down,
}

/// Plain attributes of one top-level window, as the OS reports them.
///
/// The handle is an opaque identifier, kept only for lookup and activation;
/// it may go stale at any time and is never dereferenced here.
#[derive(Debug, Clone)]
pub struct WindowInfo {
    /// Opaque OS window identifier.
    pub handle: u64,
    /// Whether the window is currently visible.
    pub visible: bool,
    /// The window's title text.
    pub title: String,
    /// The window's class name.
    pub class_name: String,
    /// Whether the style carries a caption (title bar).
    pub captioned: bool,
    /// Whether the extended style marks a tool window.
    pub tool_window: bool,
    /// Whether the style is the ordinary overlapped top-level kind.
    pub overlapped: bool,
    /// Identifier of the owning process; zero for pure system windows.
    pub process_id: u32,
}

/// Configuration consulted by the enumeration filter: denied titles and
/// classes, and the allow-override for application-framework windows that
/// legitimately lack the standard caption style.
#[derive(Debug, Clone)]
pub struct ExclusionRuleSet {
    /// Exact titles of known shell or system windows to exclude.
    pub denied_titles: Vec<String>,
    /// Class names of system chrome (taskbar, tool-tips, and the like).
    pub denied_classes: Vec<String>,
    /// Class names that are accepted even without the standard style.
    pub allowed_classes: Vec<String>,
    /// Title fragments that mark a window as accepted despite its style.
    pub allowed_title_fragments: Vec<String>,
}

/// Whether some string in `list` has exactly the text `t`.
pub open spec fn has_str(list: Seq<String>, t: Seq<char>) -> bool {
    exists|i: int| 0 <= i < list.len() && list[i]@ == t
}

/// Whether `needle` occurs in `hay` starting at position `i`.
pub open spec fn matches_at(hay: Seq<char>, needle: Seq<char>, i: int) -> bool {
    0 <= i && i + needle.len() <= hay.len() && hay.subrange(i, i + needle.len()) == needle
}

/// Whether `needle` occurs anywhere in `hay`.
pub open spec fn has_fragment(hay: Seq<char>, needle: Seq<char>) -> bool {
    exists|i: int| matches_at(hay, needle, i)
}

/// Whether `list` contains a string equal to `s`.
fn list_contains(list: &Vec<String>, s: &String) -> (r: bool)
    ensures
        r == has_str(list@, s@),
{
    let mut i: usize = 0;
    while i < list.len()
        invariant
            i <= list.len(),
            forall|k: int| 0 <= k < i ==> list@[k]@ != s@,
        decreases list.len() - i,
    {
        if list[i] == *s {
            return true;
        }
        i += 1;
    }
    false
}

/// Whether `needle` occurs in `hay` starting at character position `i`.
fn fragment_matches_at(hay: &str, needle: &str, i: usize) -> (r: bool)
    requires
        i + needle@.len() <= hay@.len(),
    ensures
        r == matches_at(hay@, needle@, i as int),
{
    let hay_len = hay.unicode_len();
    let needle_len = needle.unicode_len();
    let mut j: usize = 0;
    while j < needle_len
        invariant
            hay_len == hay@.len(),
            needle_len == needle@.len(),
            i + needle_len <= hay_len,
            j <= needle_len,
            forall|k: int| 0 <= k < j ==> hay@[i + k] == needle@[k],
        decreases needle_len - j,
    {
        if hay.get_char(i + j) != needle.get_char(j) {
            proof {
                assert(hay@.subrange(i as int, i + needle@.len())[j as int] == hay@[i + j]);
            }
            return false;
        }
        j += 1;
    }
    proof {
        assert(hay@.subrange(i as int, i + needle@.len()) =~= needle@);
    }
    true
}

/// Whether the text of `needle` occurs anywhere in the text of `hay`.
fn contains_fragment(hay: &String, needle: &String) -> (r: bool)
    ensures
        r == has_fragment(hay@, needle@),
{
    let hay_len = hay.as_str().unicode_len();
    let needle_len = needle.as_str().unicode_len();
    if needle_len > hay_len {
        return false;
    }
    if needle_len == 0 {
        proof {
            assert(matches_at(hay@, needle@, 0)) by {
                assert(hay@.subrange(0, 0) =~= needle@);
            }
        }
        return true;
    }
    let mut i: usize = 0;
    while i <= hay_len - needle_len
        invariant
            1 <= needle_len <= hay_len,
            hay_len == hay@.len(),
            needle_len == needle@.len(),
            i <= hay_len - needle_len + 1,
            forall|k: int| 0 <= k < i ==> !matches_at(hay@, needle@, k),
        decreases hay_len - needle_len - i + 1,
    {
        if fragment_matches_at(hay.as_str(), needle.as_str(), i) {
            return true;
        }
        i += 1;
    }
    false
}

/// Whether the style marks an ordinary captioned, non-tool top-level window.
pub open spec fn standard_style(w: WindowInfo) -> bool {
    w.captioned && !w.tool_window
}

/// Whether the window matches the explicit allow-override: its class is
/// allow-listed, or its title contains an allow-listed fragment.
pub open spec fn allow_override(w: WindowInfo, rules: ExclusionRuleSet) -> bool {
    ||| has_str(rules.allowed_classes@, w.class_name@)
    ||| exists|i: int|
        0 <= i < rules.allowed_title_fragments@.len() && has_fragment(
            w.title@,
            rules.allowed_title_fragments@[i]@,
        )
}

/// Whether the enumeration filter includes the window: it must be visible,
/// carry a non-empty title that is not denied, carry a class that is not
/// denied, show the standard style or match the allow-override, and belong
/// to a real process.
pub open spec fn is_candidate(w: WindowInfo, rules: ExclusionRuleSet) -> bool {
    &&& w.visible
    &&& w.title@.len() > 0
    &&& !has_str(rules.denied_titles@, w.title@)
    &&& !has_str(rules.denied_classes@, w.class_name@)
    &&& (standard_style(w) || allow_override(w, rules))
    &&& w.process_id != 0
}

/// Whether the window counts as a real application window for the foreground
/// post-pass: visible, titled, owned by a process, and either of the true
/// overlapped captioned non-tool style or matching the allow-override.
pub open spec fn real_application_window(w: WindowInfo, rules: ExclusionRuleSet) -> bool {
    &&& w.visible
    &&& w.title@.len() > 0
    &&& w.process_id != 0
    &&& ((w.overlapped && w.captioned && !w.tool_window) || allow_override(w, rules))
}

/// Exec check of [`allow_override`].
fn window_allow_override(w: &WindowInfo, rules: &ExclusionRuleSet) -> (r: bool)
    ensures
        r == allow_override(*w, *rules),
{
    if list_contains(&rules.allowed_classes, &w.class_name) {
        return true;
    }
    let mut i: usize = 0;
    while i < rules.allowed_title_fragments.len()
        invariant
            i <= rules.allowed_title_fragments@.len(),
            forall|k: int|
                0 <= k < i ==> !has_fragment(w.title@, rules.allowed_title_fragments@[k]@),
        decreases rules.allowed_title_fragments@.len() - i,
    {
        if contains_fragment(&w.title, &rules.allowed_title_fragments[i]) {
            return true;
        }
        i += 1;
    }
    false
}

/// Exec check of [`is_candidate`].
pub fn window_is_candidate(w: &WindowInfo, rules: &ExclusionRuleSet) -> (r: bool)
    ensures
        r == is_candidate(*w, *rules),
{
    if !w.visible {
        return false;
    }
    if w.title.as_str().is_empty() {
        return false;
    }
    if list_contains(&rules.denied_titles, &w.title) {
        return false;
    }
    if list_contains(&rules.denied_classes, &w.class_name) {
        return false;
    }
    if w.process_id == 0 {
        return false;
    }
    if w.captioned && !w.tool_window {
        return true;
    }
    window_allow_override(w, rules)
}

/// Exec check of [`real_application_window`].
pub fn window_is_real_application(w: &WindowInfo, rules: &ExclusionRuleSet) -> (r: bool)
    ensures
        r == real_application_window(*w, *rules),
{
    if !w.visible {
        return false;
    }
    if w.title.as_str().is_empty() {
        return false;
    }
    if w.process_id == 0 {
        return false;
    }
    if w.overlapped && w.captioned && !w.tool_window {
        return true;
    }
    window_allow_override(w, rules)
}

/// The handles of the windows that the filter includes, in enumeration order.
pub open spec fn filtered_handles(ws: Seq<WindowInfo>, rules: ExclusionRuleSet) -> Seq<u64>
    decreases ws.len(),
{
    if ws.len() == 0 {
        Seq::empty()
    } else {
        filtered_handles(ws.drop_last(), rules) + if is_candidate(ws.last(), rules) {
            seq![ws.last().handle]
        } else {
            Seq::empty()
        }
    }
}

/// The full enumeration result: the filtered handles, with the foreground
/// window force-inserted at index 0 when it is a real application window and
/// otherwise missing from the list.
pub open spec fn enumerated(
    ws: Seq<WindowInfo>,
    fg: Option<WindowInfo>,
    rules: ExclusionRuleSet,
) -> Seq<u64> {
    let base = filtered_handles(ws, rules);
    match fg {
        Some(f) => if real_application_window(f, rules) && !base.contains(f.handle) {
            seq![f.handle] + base
        } else {
            base
        },
        None => base,
    }
}

/// Whether some element of `list` equals `h`.
fn contains_handle(list: &Vec<u64>, h: u64) -> (r: bool)
    ensures
        r == list@.contains(h),
{
    let mut i: usize = 0;
    while i < list.len()
        invariant
            i <= list.len(),
            forall|k: int| 0 <= k < i ==> list@[k] != h,
        decreases list.len() - i,
    {
        if list[i] == h {
            return true;
        }
        i += 1;
    }
    false
}

/// Walks the OS window snapshot in enumeration order and keeps the handles
/// that the filter includes, then force-inserts the foreground handle at
/// index 0 when it qualifies and is missing.  An empty result is a valid
/// outcome, not an error.
pub fn enumerate_candidates(
    windows: &Vec<WindowInfo>,
    foreground: &Option<WindowInfo>,
    rules: &ExclusionRuleSet,
) -> (r: Vec<u64>)
    ensures
        r@ == enumerated(windows@, *foreground, *rules),
{
    let mut list: Vec<u64> = Vec::new();
    let mut i: usize = 0;
    while i < windows.len()
        invariant
            i <= windows.len(),
            list@ == filtered_handles(windows@.take(i as int), *rules),
        decreases windows.len() - i,
    {
        if window_is_candidate(&windows[i], rules) {
            list.push(windows[i].handle);
        }
        proof {
            assert(windows@.take(i + 1).drop_last() =~= windows@.take(i as int));
        }
        i += 1;
    }
    proof {
        assert(windows@.take(windows@.len() as int) =~= windows@);
    }
    match foreground {
        Some(f) => {
            if window_is_real_application(f, rules) && !contains_handle(&list, f.handle) {
                let ghost base = list@;
                list.insert(0, f.handle);
                proof {
                    assert(list@ =~= seq![f.handle] + base);
                }
            }
        },
        None => {},
    }
    list
}

/// The selection index a fresh session starts from: the first position of
/// the foreground handle in the candidate list, or 0 when there is no
/// foreground window or it is absent from the list.
pub open spec fn is_initial_selection(sel: int, cands: Seq<u64>, fg: Option<WindowInfo>) -> bool {
    match fg {
        Some(f) => if cands.contains(f.handle) {
            &&& 0 <= sel < cands.len()
            &&& cands[sel] == f.handle
            &&& forall|k: int| 0 <= k < sel ==> cands[k] != f.handle
        } else {
            sel == 0
        },
        None => sel == 0,
    }
}

/// The selection index after one direction command on a list of length
/// `len`: with one candidate or none the command moves nothing; otherwise
/// `Left` steps back and `Right` steps forward, each with circular
/// wraparound, while `Up` and `Down` leave the index in place.
pub open spec fn moved_index(d: Direction, sel: int, len: int) -> int {
    if len <= 1 {
        sel
    } else {
        match d {
            Direction::Left => if sel > 0 {
                sel - 1
            } else {
                len - 1
            },
            Direction::Right => (sel + 1) % len,
            Direction::Up => sel,
            Direction::Down => sel,
        }
    }
}

/// The handle a closing session activates: the one at the selection index,
/// or none when the candidate list is empty.
pub open spec fn activation_target(cands: Seq<u64>, sel: int) -> Option<u64> {
    if cands.len() == 0 {
        None
    } else {
        Some(cands[sel])
    }
}

/// One switching attempt's state: whether a session is active, the candidate
/// list snapshotted at session start, and the selection index.  Created
/// fresh at chord-start, reset at chord-end, never persisted.
pub struct WindowManager {
    switching: bool,
    window_list: Vec<u64>,
    selected_index: usize,
}

impl WindowManager {
    /// Whether a switching session is active.
    pub closed spec fn active(&self) -> bool {
        self.switching
    }

    /// The candidate handles of the current session, in order.
    pub closed spec fn candidates(&self) -> Seq<u64> {
        self.window_list@
    }

    /// The current selection index.
    pub closed spec fn selected(&self) -> int {
        self.selected_index as int
    }

    /// The state machine's invariant: outside a session the candidate list
    /// is empty and the selection rests at 0; with candidates present the
    /// selection stays in bounds; with none it is frozen at 0.
    pub open spec fn wf(&self) -> bool {
        &&& (!self.active() ==> self.candidates().len() == 0)
        &&& (self.candidates().len() == 0 ==> self.selected() == 0)
        &&& (self.candidates().len() > 0 ==> 0 <= self.selected() < self.candidates().len())
    }

    /// A fresh manager: idle, no candidates, selection at 0.
    pub fn new() -> (r: Self)
        ensures
            r.wf(),
            !r.active(),
            r.candidates() == Seq::<u64>::empty(),
            r.selected() == 0,
    {
        WindowManager { switching: false, window_list: Vec::new(), selected_index: 0 }
    }

    /// Starts a session: snapshots the candidate list from the given OS
    /// window snapshot and selects the foreground window's position, or 0.
    /// A second start while already active is dropped with no state change.
    /// Returns whether a session was newly started.
    pub fn start_switching(
        &mut self,
        windows: &Vec<WindowInfo>,
        foreground: &Option<WindowInfo>,
        rules: &ExclusionRuleSet,
    ) -> (started: bool)
        requires
            old(self).wf(),
        ensures
            final(self).wf(),
            started == !old(self).active(),
            old(self).active() ==> *final(self) == *old(self),
            !old(self).active() ==> {
                &&& final(self).active()
                &&& final(self).candidates() == enumerated(windows@, *foreground, *rules)
                &&& is_initial_selection(
                    final(self).selected(),
                    final(self).candidates(),
                    *foreground,
                )
            },
    {
        if self.switching {
            return false;
        }
        self.switching = true;
        self.window_list = enumerate_candidates(windows, foreground, rules);
        self.selected_index = 0;
        match foreground {
            Some(f) => {
                let mut i: usize = 0;
                while i < self.window_list.len()
                    invariant
                        *foreground == Some(*f),
                        self.switching,
                        !old(self).active(),
                        self.window_list@ == enumerated(windows@, *foreground, *rules),
                        self.selected_index == 0,
                        i <= self.window_list@.len(),
                        forall|k: int| 0 <= k < i ==> self.window_list@[k] != f.handle,
                    decreases self.window_list@.len() - i,
                {
                    if self.window_list[i] == f.handle {
                        self.selected_index = i;
                        proof {
                            assert(self.window_list@[i as int] == f.handle);
                            assert(self.window_list@.contains(f.handle));
                        }
                        return true;
                    }
                    i += 1;
                }
                self.selected_index = 0;
            },
            None => {},
        }
        true
    }

    /// Applies one direction command to the selection.  Outside a session,
    /// or with at most one candidate, or for `Up` and `Down`, nothing moves.
    /// Returns whether the selection changed (and the overlay should be told).
    pub fn select_window(&mut self, direction: Direction) -> (changed: bool)
        requires
            old(self).wf(),
        ensures
            final(self).wf(),
            final(self).active() == old(self).active(),
            final(self).candidates() == old(self).candidates(),
            !old(self).active() ==> *final(self) == *old(self),
            old(self).candidates().len() == 0 ==> *final(self) == *old(self),
            old(self).active() ==> final(self).selected() == moved_index(
                direction,
                old(self).selected(),
                old(self).candidates().len() as int,
            ),
            changed == (old(self).active() && old(self).candidates().len() > 1 && (direction
                == Direction::Left || direction == Direction::Right)),
    {
        if !self.switching || self.window_list.len() == 0 {
            return false;
        }
        let len = self.window_list.len();
        match direction {
            Direction::Left => {
                if self.selected_index > 0 {
                    self.selected_index = self.selected_index - 1;
                } else {
                    self.selected_index = len - 1;
                }
            },
            Direction::Right => {
                self.selected_index = (self.selected_index + 1) % len;
            },
            Direction::Up => {},
            Direction::Down => {},
        }
        len > 1 && (direction == Direction::Left || direction == Direction::Right)
    }

    /// Ends the session: reports the handle to activate (best effort, the
    /// handle may have gone stale) and resets to idle.  With no candidates,
    /// or outside a session, no activation is requested.
    pub fn finish_switching(&mut self) -> (r: Option<u64>)
        requires
            old(self).wf(),
        ensures
            final(self).wf(),
            !final(self).active(),
            final(self).candidates().len() == 0,
            final(self).selected() == 0,
            !old(self).active() ==> r is None && *final(self) == *old(self),
            old(self).active() ==> r == activation_target(
                old(self).candidates(),
                old(self).selected(),
            ),
            old(self).active() && old(self).candidates().len() == 0 ==> r is None,
            old(self).active() && old(self).candidates().len() > 0 ==> r == Some(
                old(self).candidates()[old(self).selected()],
            ),
    {
        if !self.switching {
            return None;
        }
        self.switching = false;
        let r = if self.window_list.len() > 0 {
            Some(self.window_list[self.selected_index])
        } else {
            None
        };
        self.window_list = Vec::new();
        self.selected_index = 0;
        r
    }

    /// Whether a session is active.
    pub fn is_switching(&self) -> (r: bool)
        ensures
            r == self.active(),
    {
        self.switching
    }

    /// The current selection index.
    pub fn selection(&self) -> (r: usize)
        ensures
            r as int == self.selected(),
    {
        self.selected_index
    }

    /// How many candidates the current session holds.
    pub fn candidate_count(&self) -> (r: usize)
        ensures
            r as int == self.candidates().len(),
    {
        self.window_list.len()
    }

    /// The candidate handle at position `i`.
    pub fn candidate_at(&self, i: usize) -> (r: u64)
        requires
            0 <= i < self.candidates().len(),
        ensures
            r == self.candidates()[i as int],
    {
        self.window_list[i]
    }
}

/// Width of the switcher overlay window, in pixels.
pub const SWITCHER_WIDTH: i32 = 800;

/// Height of the switcher overlay window, in pixels.
pub const SWITCHER_HEIGHT: i32 = 400;

/// The top-left corner that centers the switcher overlay on a screen of the
/// given size.
pub fn switcher_position(screen_width: i32, screen_height: i32) -> (r: (i32, i32))
    requires
        SWITCHER_WIDTH <= screen_width <= 100_000,
        SWITCHER_HEIGHT <= screen_height <= 100_000,
    ensures
        r.0 == (screen_width - SWITCHER_WIDTH) / 2,
        r.1 == (screen_height - SWITCHER_HEIGHT) / 2,
{
    ((screen_width - SWITCHER_WIDTH) / 2, (screen_height - SWITCHER_HEIGHT) / 2)
}

/// Whether no two windows of the snapshot share a handle.  The OS visits
/// each top-level window exactly once, so a real snapshot satisfies this.
pub open spec fn distinct_handles(ws: Seq<WindowInfo>) -> bool {
    forall|i: int, j: int| 0 <= i < j < ws.len() ==> ws[i].handle != ws[j].handle
}

/// A handle passes the filter exactly when some window of the snapshot
/// carries it and that window is a candidate.
proof fn lemma_filtered_handles_membership(ws: Seq<WindowInfo>, rules: ExclusionRuleSet, h: u64)
    ensures
        filtered_handles(ws, rules).contains(h) <==> exists|i: int|
            0 <= i < ws.len() && ws[i].handle == h && is_candidate(ws[i], rules),
    decreases ws.len(),
{
    if ws.len() == 0 {
    } else {
        let prefix = ws.drop_last();
        lemma_filtered_handles_membership(prefix, rules, h);
        let whole = filtered_handles(ws, rules);
        let base = filtered_handles(prefix, rules);
        if whole.contains(h) {
            let j = choose|j: int| 0 <= j < whole.len() && whole[j] == h;
            if j < base.len() {
                assert(base[j] == h);
                assert(base.contains(h));
                let i = choose|i: int|
                    0 <= i < prefix.len() && prefix[i].handle == h && is_candidate(
                        prefix[i],
                        rules,
                    );
                assert(ws[i] == prefix[i]);
            } else {
                assert(is_candidate(ws.last(), rules) && ws.last().handle == h);
                assert(ws[ws.len() - 1].handle == h && is_candidate(ws[ws.len() - 1], rules));
            }
        }
        if exists|i: int| 0 <= i < ws.len() && ws[i].handle == h && is_candidate(ws[i], rules) {
            let i = choose|i: int|
                0 <= i < ws.len() && ws[i].handle == h && is_candidate(ws[i], rules);
            if i < ws.len() - 1 {
                assert(prefix[i] == ws[i]);
                assert(base.contains(h));
                let j = choose|j: int| 0 <= j < base.len() && base[j] == h;
                assert(whole[j] == h);
            } else {
                assert(is_candidate(ws.last(), rules));
                assert(whole[base.len() as int] == h);
            }
            assert(whole.contains(h));
        }
    }
}

/// The filtered handles of a snapshot with pairwise distinct handles are
/// themselves pairwise distinct.
proof fn lemma_filtered_handles_no_duplicates(ws: Seq<WindowInfo>, rules: ExclusionRuleSet)
    requires
        distinct_handles(ws),
    ensures
        filtered_handles(ws, rules).no_duplicates(),
    decreases ws.len(),
{
    if ws.len() == 0 {
    } else {
        let prefix = ws.drop_last();
        assert(distinct_handles(prefix)) by {
            assert(forall|i: int, j: int|
                0 <= i < j < prefix.len() ==> prefix[i] == ws[i] && prefix[j] == ws[j]);
        }
        lemma_filtered_handles_no_duplicates(prefix, rules);
        let whole = filtered_handles(ws, rules);
        let base = filtered_handles(prefix, rules);
        if is_candidate(ws.last(), rules) {
            let h = ws.last().handle;
            assert(!base.contains(h)) by {
                lemma_filtered_handles_membership(prefix, rules, h);
                if exists|i: int|
                    0 <= i < prefix.len() && prefix[i].handle == h && is_candidate(
                        prefix[i],
                        rules,
                    ) {
                    let i = choose|i: int|
                        0 <= i < prefix.len() && prefix[i].handle == h && is_candidate(
                            prefix[i],
                            rules,
                        );
                    assert(ws[i].handle == ws[ws.len() - 1].handle);
                }
            }
            assert(whole.no_duplicates()) by {
                assert(forall|i: int, j: int|
                    0 <= i < j < whole.len() ==> whole[i] != whole[j]) by {
                    assert(forall|i: int| 0 <= i < base.len() ==> whole[i] == base[i]);
                    assert(whole[base.len() as int] == h);
                }
            }
        } else {
            assert(whole =~= base);
        }
    }
}

/// Enumeration never yields duplicate handles, for any OS window set: the
/// filter visits each window once, and the foreground post-pass inserts its
/// handle only when it is absent.
pub proof fn lemma_enumeration_no_duplicate_handles(
    ws: Seq<WindowInfo>,
    fg: Option<WindowInfo>,
    rules: ExclusionRuleSet,
)
    requires
        distinct_handles(ws),
    ensures
        enumerated(ws, fg, rules).no_duplicates(),
{
    lemma_filtered_handles_no_duplicates(ws, rules);
    let base = filtered_handles(ws, rules);
    let whole = enumerated(ws, fg, rules);
    match fg {
        Some(f) => {
            if real_application_window(f, rules) && !base.contains(f.handle) {
                assert(whole[0] == f.handle);
                assert forall|i: int, j: int| 0 <= i < j < whole.len() implies whole[i]
                    != whole[j] by {
                    assert(whole[j] == base[j - 1]);
                    if i == 0 {
                        assert(base.contains(base[j - 1]));
                    } else {
                        assert(whole[i] == base[i - 1]);
                    }
                }
            }
        },
        None => {},
    }
}

/// A handle appears in the enumeration result exactly when some window of
/// the snapshot carries it and passes the filter, or the foreground window
/// carries it and counts as a real application window.
pub proof fn lemma_enumeration_membership(
    ws: Seq<WindowInfo>,
    fg: Option<WindowInfo>,
    rules: ExclusionRuleSet,
    h: u64,
)
    ensures
        enumerated(ws, fg, rules).contains(h) <==> {
            ||| exists|i: int| 0 <= i < ws.len() && ws[i].handle == h && is_candidate(ws[i], rules)
            ||| match fg {
                Some(f) => f.handle == h && real_application_window(f, rules),
                None => false,
            }
        },
{
    lemma_filtered_handles_membership(ws, rules, h);
    let base = filtered_handles(ws, rules);
    let whole = enumerated(ws, fg, rules);
    match fg {
        Some(f) => {
            if real_application_window(f, rules) && !base.contains(f.handle) {
                assert(forall|i: int| 0 <= i < base.len() ==> whole[i + 1] == base[i]);
                assert(whole[0] == f.handle);
                if whole.contains(h) {
                    let j = choose|j: int| 0 <= j < whole.len() && whole[j] == h;
                    if j > 0 {
                        assert(base[j - 1] == h);
                        assert(base.contains(h));
                    }
                }
                if base.contains(h) {
                    let j = choose|j: int| 0 <= j < base.len() && base[j] == h;
                    assert(whole[j + 1] == h);
                    assert(whole.contains(h));
                }
                if f.handle == h {
                    assert(whole.contains(h));
                }
            }
        },
        None => {},
    }
}

/// A window with an empty title is never a candidate, regardless of its
/// class or style: neither the filter nor the foreground post-pass admits
/// its handle, as long as every window carrying that handle is untitled.
pub proof fn lemma_empty_title_never_candidate(
    ws: Seq<WindowInfo>,
    fg: Option<WindowInfo>,
    rules: ExclusionRuleSet,
    h: u64,
)
    requires
        forall|i: int| 0 <= i < ws.len() && ws[i].handle == h ==> ws[i].title@.len() == 0,
        match fg {
            Some(f) => f.handle == h ==> f.title@.len() == 0,
            None => true,
        },
    ensures
        !enumerated(ws, fg, rules).contains(h),
{
    lemma_enumeration_membership(ws, fg, rules, h);
}

/// A non-foreground window whose class is denied is never a candidate,
/// regardless of its title: the filter refuses a denied class even when the
/// allow-override matches.  (The foreground post-pass is the one exception:
/// a denied-class foreground window that matches the allow-override is still
/// force-inserted.)
pub proof fn lemma_denied_class_never_candidate(
    ws: Seq<WindowInfo>,
    fg: Option<WindowInfo>,
    rules: ExclusionRuleSet,
    h: u64,
)
    requires
        forall|i: int|
            0 <= i < ws.len() && ws[i].handle == h ==> has_str(
                rules.denied_classes@,
                ws[i].class_name@,
            ),
        match fg {
            Some(f) => f.handle != h,
            None => true,
        },
    ensures
        !enumerated(ws, fg, rules).contains(h),
{
    lemma_enumeration_membership(ws, fg, rules, h);
}

/// The selection after `n` consecutive commands in direction `d`.
pub open spec fn moved_index_n(d: Direction, sel: int, len: int, n: nat) -> int
    decreases n,
{
    if n == 0 {
        sel
    } else {
        moved_index(d, moved_index_n(d, sel, len, (n - 1) as nat), len)
    }
}

/// On a non-empty candidate list of length `len`, `n` consecutive "next"
/// commands move the selection from `sel` to `(sel + n) mod len`.
pub proof fn lemma_next_commands_move_mod(sel: int, len: int, n: nat)
    requires
        len >= 1,
        0 <= sel < len,
    ensures
        moved_index_n(Direction::Right, sel, len, n) == (sel + n) % len,
    decreases n,
{
    if n == 0 {
        vstd::arithmetic::div_mod::lemma_small_mod(sel as nat, len as nat);
    } else {
        lemma_next_commands_move_mod(sel, len, (n - 1) as nat);
        vstd::arithmetic::div_mod::lemma_mod_bound(sel + n - 1, len);
        if len == 1 {
            vstd::arithmetic::div_mod::lemma_mod_bound(sel + n, len);
        } else {
            vstd::arithmetic::div_mod::lemma_small_mod(1nat, len as nat);
            vstd::arithmetic::div_mod::lemma_add_mod_noop(sel + n - 1, 1, len);
        }
    }
}

/// On a non-empty candidate list of length `len`, `n` consecutive
/// "previous" commands move the selection from `sel` to `(sel - n) mod len`
/// (mathematical modulus, so the result stays in `0 .. len`).
pub proof fn lemma_previous_commands_move_mod(sel: int, len: int, n: nat)
    requires
        len >= 1,
        0 <= sel < len,
    ensures
        moved_index_n(Direction::Left, sel, len, n) == (sel - n) % len,
    decreases n,
{
    if n == 0 {
        vstd::arithmetic::div_mod::lemma_small_mod(sel as nat, len as nat);
    } else {
        lemma_previous_commands_move_mod(sel, len, (n - 1) as nat);
        let p = moved_index_n(Direction::Left, sel, len, (n - 1) as nat);
        vstd::arithmetic::div_mod::lemma_mod_bound(sel - (n - 1), len);
        if len == 1 {
            vstd::arithmetic::div_mod::lemma_mod_bound(sel - n, len);
        } else {
            assert((p + (len - 1)) % len == (sel - n) % len) by {
                vstd::arithmetic::div_mod::lemma_small_mod((len - 1) as nat, len as nat);
                vstd::arithmetic::div_mod::lemma_add_mod_noop(sel - (n - 1), len - 1, len);
                vstd::arithmetic::div_mod::lemma_mod_add_multiples_vanish(sel - n, len);
            }
            if p > 0 {
                vstd::arithmetic::div_mod::lemma_mod_add_multiples_vanish(p - 1, len);
                vstd::arithmetic::div_mod::lemma_small_mod((p - 1) as nat, len as nat);
            } else {
                vstd::arithmetic::div_mod::lemma_small_mod((len - 1) as nat, len as nat);
            }
        }
    }
}

} // verus!
