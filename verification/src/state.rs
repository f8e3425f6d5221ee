//! The state of the grabber that keyboard and buttons act on: the
//! selection, the keys pressed and released, the hotkeys, and which window
//! comes next. Pressing keys records them; releasing them moves them to the
//! released set, and once every pressed key of a combination is released the
//! released set is compared with the hotkeys, in a fixed order of priority.
use vstd::prelude::*;
use crate::keys::{
    Key, KeyView, key_set, key_views, distinct, normalized, holds_key, insert_key, remove_key,
    lemma_distinct_len,
};
use crate::selection::Selection;
use crate::shortcuts::{MyHotkey, ShortcutSettings, are_all_fields_completed, some_fields_are_equal, hotkey_keys, binding_count, checked_count};

verus! {

/// The state.
#[derive(Clone)]
pub struct CaptureState<C> {
    pub selection: Selection<C>,
    /// The keys pressed and not yet released.
    pub tasti: Vec<Key>,
    /// The keys released since the combination began.
    pub attivazione: Vec<Key>,
    /// Counts presses of new keys and releases of pressed keys; reset at
    /// every release.
    pub count: i32,
    /// Whether the last released combination fired a hotkey.
    pub is_found: bool,
    /// The hotkeys, in the order of the bindings.
    pub hotkeys: Vec<MyHotkey>,
    /// The key of the release that last fired a hotkey, when it is kept.
    pub last_key_event: Option<Key>,
    /// Whether the shortcut settings lead back to the drawing window.
    pub show_drawing: bool,
    /// Whether a window is being closed to open another.
    pub switch_window: bool,
}

/// The mathematical value of a `CaptureState`.
#[verifier::ext_equal]
pub struct CaptureView<C> {
    pub selection: Selection<C>,
    pub pressed: Set<KeyView>,
    pub released: Set<KeyView>,
    pub count: int,
    pub is_found: bool,
    pub hotkeys: Seq<Seq<KeyView>>,
    pub last_key_event: Option<KeyView>,
    pub show_drawing: bool,
    pub switch_window: bool,
}

impl<C> View for CaptureState<C> {
    type V = CaptureView<C>;

    open spec fn view(&self) -> CaptureView<C> {
        CaptureView {
            selection: self.selection,
            pressed: key_set(self.tasti@),
            released: key_set(self.attivazione@),
            count: self.count as int,
            is_found: self.is_found,
            hotkeys: self.hotkeys@.map_values(|h: MyHotkey| h@),
            last_key_event: match self.last_key_event {
                Some(k) => Some(k@),
                None => None,
            },
            show_drawing: self.show_drawing,
            switch_window: self.switch_window,
        }
    }
}

/// What a key release asks of the rest of the program.
#[derive(Clone, Copy)]
pub struct KeyUpEffects {
    /// Save the captured image.
    pub save_image: bool,
    /// Quit.
    pub quit_app: bool,
    /// Close this window and open the shortcut settings.
    pub open_shortcut_settings: bool,
    /// Close this window and open the choice of image format.
    pub open_format_settings: bool,
    /// Copy the captured image to the clipboard.
    pub copy_to_clipboard: bool,
}

pub open spec fn no_effects() -> KeyUpEffects {
    KeyUpEffects {
        save_image: false,
        quit_app: false,
        open_shortcut_settings: false,
        open_format_settings: false,
        copy_to_clipboard: false,
    }
}

/// Whether an image has been captured: one with a width and a height.
pub fn image_captured(width: u32, height: u32) -> (r: bool)
    ensures
        r == (width != 0 && height != 0),
{
    width != 0 && height != 0
}

/// Where the confirmation of the shortcut settings leads.
#[derive(Clone, Copy, PartialEq, Eq, Structural, Debug)]
pub enum ApplyOutcome {
    /// The settings are not valid: nothing opens.
    Stay,
    /// Back to the drawing window.
    OpenDrawingArea,
    /// On to the choice of image format.
    OpenFormatSettings,
}

/// Whether settings can be confirmed: every checked binding filled in and
/// no two of them the same.
pub open spec fn settings_valid(st: &ShortcutSettings) -> bool {
    &&& forall|i: int| 0 <= i < checked_count() ==> #[trigger] st.filled(i)
    &&& !exists|i: int, j: int| 0 <= i < j < checked_count() && #[trigger] st.clash(i, j)
}

/// The keys of a hotkey built from a binding do not repeat.
pub proof fn lemma_hotkey_keys_distinct(m: Seq<char>, k: Seq<char>)
    ensures
        key_views_distinct(hotkey_keys(m, k)),
{
}

pub open spec fn key_views_distinct(v: Seq<KeyView>) -> bool {
    v.no_duplicates()
}

/// Whether a hotkey with keys `hk` fires for the released keys: every
/// released key is one of the hotkey's keys, and the hotkey has as many keys
/// as were released.
pub open spec fn fires(hk: Seq<KeyView>, released: Set<KeyView>) -> bool {
    forall|x: KeyView| #[trigger] released.contains(x) ==> (hk.contains(x) && hk.len() == released.len())
}

/// Whether hotkey `i` is looked at: the first one always, the others only
/// while no hotkey has fired.
pub open spec fn consulted<C>(i: int, s: CaptureView<C>) -> bool {
    i == 0 || !s.is_found
}

/// The selection after the start hotkey: no corners, no editing, the
/// rectangle back at its start, the buttons hidden.
pub open spec fn cleared_for_start<C>(sel: Selection<C>) -> Selection<C> {
    Selection {
        start_position: None,
        end_position: None,
        start_position_to_display: None,
        end_position_to_display: None,
        is_dragging: false,
        is_selecting: false,
        modify: false,
        rect: sel.empty_rect,
        hide_buttons: true,
        ..sel
    }
}

/// Hotkey `i` (0 save, 1 start, 2 quit, 3 edit, 4 shortcut settings,
/// 5 format settings, 6 copy to clipboard, 7 entire screen) looked at after
/// a release of key `k`, when an image has been captured or not.
pub open spec fn hotkey_step<C>(
    i: int,
    s: CaptureView<C>,
    e: KeyUpEffects,
    k: KeyView,
    has_image: bool,
) -> (CaptureView<C>, KeyUpEffects) {
    if !consulted(i, s) || !fires(s.hotkeys[i], s.released) {
        (s, e)
    } else if i == 0 {
        on_save(s, e, k, has_image)
    } else if i == 1 {
        on_start(s, e, k)
    } else if i == 2 {
        on_quit(s, e)
    } else if i == 3 {
        on_edit(s, e, k)
    } else if i == 4 {
        on_shortcut_settings(s, e)
    } else if i == 5 {
        on_format_settings(s, e, k)
    } else if i == 6 {
        on_clipboard(s, e, has_image)
    } else {
        on_entire_screen(s, e, k)
    }
}

/// The save hotkey: saves the image if there is one.
pub open spec fn on_save<C>(s: CaptureView<C>, e: KeyUpEffects, k: KeyView, has_image: bool) -> (
    CaptureView<C>,
    KeyUpEffects,
) {
    (
        CaptureView { released: Set::empty(), is_found: true, last_key_event: Some(k), ..s },
        KeyUpEffects { save_image: has_image, ..e },
    )
}

/// The start hotkey: a new selection begins.
pub open spec fn on_start<C>(s: CaptureView<C>, e: KeyUpEffects, k: KeyView) -> (
    CaptureView<C>,
    KeyUpEffects,
) {
    (
        CaptureView {
            selection: cleared_for_start(s.selection),
            is_found: true,
            released: Set::empty(),
            last_key_event: Some(k),
            ..s
        },
        e,
    )
}

/// The quit hotkey: asks to quit, and counts as no hotkey for the ones after.
pub open spec fn on_quit<C>(s: CaptureView<C>, e: KeyUpEffects) -> (CaptureView<C>, KeyUpEffects) {
    (s, KeyUpEffects { quit_app: true, ..e })
}

/// The edit hotkey: when both corners are known, their editing begins.
pub open spec fn on_edit<C>(s: CaptureView<C>, e: KeyUpEffects, k: KeyView) -> (
    CaptureView<C>,
    KeyUpEffects,
) {
    if s.selection.start_position is Some && s.selection.end_position is Some {
        (
            CaptureView {
                selection: Selection {
                    is_dragging: true,
                    is_selecting: true,
                    hide_buttons: true,
                    ..s.selection
                },
                is_found: true,
                released: Set::empty(),
                last_key_event: Some(k),
                ..s
            },
            e,
        )
    } else {
        (s, e)
    }
}

/// The shortcut-settings hotkey: the hotkeys are dropped and the settings
/// open, leading back to the drawing window.
pub open spec fn on_shortcut_settings<C>(s: CaptureView<C>, e: KeyUpEffects) -> (
    CaptureView<C>,
    KeyUpEffects,
) {
    (
        CaptureView {
            selection: Selection {
                is_dragging: false,
                is_selecting: false,
                modify: false,
                ..s.selection
            },
            hotkeys: Seq::empty(),
            released: Set::empty(),
            is_found: true,
            last_key_event: None,
            show_drawing: true,
            ..s
        },
        KeyUpEffects { open_shortcut_settings: true, ..e },
    )
}

/// The format hotkey: the choice of image format opens.
pub open spec fn on_format_settings<C>(s: CaptureView<C>, e: KeyUpEffects, k: KeyView) -> (
    CaptureView<C>,
    KeyUpEffects,
) {
    (
        CaptureView {
            selection: Selection {
                is_dragging: false,
                is_selecting: false,
                modify: false,
                hide_buttons: false,
                ..s.selection
            },
            is_found: true,
            released: Set::empty(),
            last_key_event: Some(k),
            ..s
        },
        KeyUpEffects { open_format_settings: true, ..e },
    )
}

/// The clipboard hotkey: copies the image if there is one.
pub open spec fn on_clipboard<C>(s: CaptureView<C>, e: KeyUpEffects, has_image: bool) -> (
    CaptureView<C>,
    KeyUpEffects,
) {
    (
        CaptureView { released: Set::empty(), is_found: true, last_key_event: None, ..s },
        KeyUpEffects { copy_to_clipboard: has_image, ..e },
    )
}

/// The entire-screen hotkey: asks for the whole screen to be captured.
pub open spec fn on_entire_screen<C>(s: CaptureView<C>, e: KeyUpEffects, k: KeyView) -> (
    CaptureView<C>,
    KeyUpEffects,
) {
    (
        CaptureView {
            selection: Selection {
                hide_buttons: true,
                capture_screen: true,
                start_position: None,
                end_position: None,
                start_position_to_display: None,
                end_position_to_display: None,
                is_dragging: false,
                is_selecting: false,
                ..s.selection
            },
            released: Set::empty(),
            last_key_event: Some(k),
            is_found: true,
            ..s
        },
        e,
    )
}

/// The hotkeys from `i` on, looked at in order.
pub open spec fn hotkeys_from<C>(
    i: int,
    s: CaptureView<C>,
    e: KeyUpEffects,
    k: KeyView,
    has_image: bool,
) -> (CaptureView<C>, KeyUpEffects)
    decreases 8 - i,
{
    if i >= 8 || i < 0 {
        (s, e)
    } else {
        let (s2, e2) = hotkey_step(i, s, e, k, has_image);
        hotkeys_from(i + 1, s2, e2, k, has_image)
    }
}

/// Every hotkey looked at from `i` on exists, when a key was released.
pub open spec fn hotkeys_present_from<C>(
    i: int,
    s: CaptureView<C>,
    e: KeyUpEffects,
    k: KeyView,
    has_image: bool,
) -> bool
    decreases 8 - i,
{
    if i >= 8 || i < 0 {
        true
    } else {
        &&& (consulted(i, s) && s.released.len() > 0) ==> i < s.hotkeys.len()
        &&& hotkeys_present_from(i + 1, hotkey_step(i, s, e, k, has_image).0, hotkey_step(i, s, e, k, has_image).1, k, has_image)
    }
}

/// The release of key `k` moves its recorded form from the pressed keys to
/// the released ones, when it was pressed and is not yet released.
pub open spec fn after_release<C>(s: CaptureView<C>, k: KeyView) -> CaptureView<C> {
    let n = normalized(k);
    if s.pressed.contains(n) && !s.released.contains(n) {
        CaptureView {
            released: s.released.insert(n),
            pressed: s.pressed.remove(n),
            count: s.count - 1,
            ..s
        }
    } else {
        s
    }
}

/// Whether the release completes a combination: nothing pressed is left
/// to count, and something was released.
pub open spec fn completes<C>(s: CaptureView<C>) -> bool {
    s.count <= 0 && s.released.len() > 0
}

/// Whether the release of key `k` completes a combination and has to look
/// at a hotkey that is not there.
pub open spec fn key_up_misses_hotkey<C>(s: CaptureView<C>, k: KeyView, has_image: bool) -> bool {
    let s1 = after_release(s, k);
    &&& k != KeyView::CapsLock
    &&& completes(s1)
    &&& !hotkeys_present_from(0, CaptureView { count: 0, ..s1 }, no_effects(), k, has_image)
}

/// What the release of key `k` does.
pub open spec fn after_key_up<C>(s: CaptureView<C>, k: KeyView, has_image: bool) -> (
    CaptureView<C>,
    KeyUpEffects,
) {
    if k == KeyView::CapsLock {
        (s, no_effects())
    } else {
        let s1 = after_release(s, k);
        if completes(s1) {
            let (s2, e) = hotkeys_from(0, CaptureView { count: 0, ..s1 }, no_effects(), k, has_image);
            (CaptureView { released: Set::empty(), count: 0, ..s2 }, e)
        } else {
            (CaptureView { count: 0, ..s1 }, no_effects())
        }
    }
}

/// What the press of key `k` does: a key other than Caps Lock that is not
/// among the pressed keys (as it is) is recorded in its normalized form,
/// counted, and clears the fired flag.
pub open spec fn after_key_down<C>(s: CaptureView<C>, k: KeyView) -> CaptureView<C> {
    if k == KeyView::CapsLock || s.pressed.contains(k) {
        s
    } else {
        CaptureView {
            pressed: s.pressed.insert(normalized(k)),
            is_found: false,
            count: s.count + 1,
            ..s
        }
    }
}

impl<C: Copy> CaptureState<C> {
    /// No key recorded in either list twice, no hotkey with a key twice, and
    /// the selection's corners known in window coordinates.
    pub open spec fn wf(&self) -> bool {
        &&& self.selection.wf()
        &&& distinct(self.tasti@)
        &&& distinct(self.attivazione@)
        &&& forall|i: int| 0 <= i < self.hotkeys@.len() ==> distinct(#[trigger] self.hotkeys@[i].keys@)
    }

    /// Whether hotkey `i` fires for the released keys.
    fn hotkey_fires(&self, i: usize) -> (r: bool)
        requires
            self.wf(),
            key_set(self.attivazione@).len() > 0 ==> i < self.hotkeys@.len(),
        ensures
            r == fires(self@.hotkeys[i as int], self@.released),
    {
        proof {
            lemma_distinct_len(self.attivazione@);
        }
        if self.attivazione.len() == 0 {
            assert(self@.released =~= Set::empty());
            return true;
        }
        let hk = &self.hotkeys[i];
        let ghost hkv = self@.hotkeys[i as int];
        assert(hkv == key_views(hk.keys@));
        let mut j: usize = 0;
        while j < self.attivazione.len()
            invariant
                self.wf(),
                j <= self.attivazione@.len(),
                i < self.hotkeys@.len(),
                *hk == self.hotkeys@[i as int],
                hkv == key_views(hk.keys@),
                key_set(self.attivazione@).len() == self.attivazione@.len(),
                forall|a: int| 0 <= a < j ==> hkv.contains(#[trigger] self.attivazione@[a]@)
                    && hkv.len() == self.attivazione@.len(),
            decreases self.attivazione@.len() - j,
        {
            if !holds_key(&hk.keys, &self.attivazione[j]) || hk.keys.len() != self.attivazione.len() {
                proof {
                    let x = self.attivazione@[j as int]@;
                    assert(key_views(self.attivazione@)[j as int] == x);
                    assert(self@.released.contains(x));
                }
                return false;
            }
            j = j + 1;
        }
        proof {
            assert forall|x: KeyView| #[trigger] self@.released.contains(x) implies (hkv.contains(x)
                && hkv.len() == self@.released.len()) by {
                let a = choose|a: int| 0 <= a < key_views(self.attivazione@).len() && key_views(self.attivazione@)[a] == x;
                assert(self.attivazione@[a]@ == x);
            }
        }
        true
    }

    fn fire_save(&mut self, key: &Key, has_image: bool, effects: &mut KeyUpEffects)
        requires
            old(self).wf(),
        ensures
            final(self).wf(),
            (final(self)@, *final(effects)) == on_save(old(self)@, *old(effects), key@, has_image),
    {
        let ghost s = self@;
        self.attivazione.clear();
        self.is_found = true;
        effects.save_image = has_image;
        self.last_key_event = Some(key.duplicate());
        assert(self@ =~= on_save(s, *old(effects), key@, has_image).0);
    }

    fn fire_start(&mut self, key: &Key)
        requires
            old(self).wf(),
        ensures
            final(self).wf(),
            final(self)@ == on_start(old(self)@, no_effects(), key@).0,
    {
        let ghost s = self@;
        self.selection.start_position = None;
        self.selection.end_position = None;
        self.selection.start_position_to_display = None;
        self.selection.end_position_to_display = None;
        self.selection.is_dragging = false;
        self.selection.is_selecting = false;
        self.selection.modify = false;
        self.selection.rect = self.selection.empty_rect;
        self.is_found = true;
        self.attivazione.clear();
        self.selection.hide_buttons = true;
        self.last_key_event = Some(key.duplicate());
        assert(self@ =~= on_start(s, no_effects(), key@).0);
    }

    fn fire_edit(&mut self, key: &Key)
        requires
            old(self).wf(),
        ensures
            final(self).wf(),
            final(self)@ == on_edit(old(self)@, no_effects(), key@).0,
    {
        let ghost s = self@;
        if self.selection.start_position.is_some() && self.selection.end_position.is_some() {
            self.selection.is_dragging = true;
            self.selection.is_selecting = true;
            self.is_found = true;
            self.selection.hide_buttons = true;
            self.attivazione.clear();
            self.last_key_event = Some(key.duplicate());
            assert(self@ =~= on_edit(s, no_effects(), key@).0);
        }
    }

    fn fire_shortcut_settings(&mut self, effects: &mut KeyUpEffects)
        requires
            old(self).wf(),
        ensures
            final(self).wf(),
            (final(self)@, *final(effects)) == on_shortcut_settings(old(self)@, *old(effects)),
    {
        let ghost s = self@;
        self.selection.is_dragging = false;
        self.selection.is_selecting = false;
        self.selection.modify = false;
        self.hotkeys.clear();
        self.attivazione.clear();
        self.is_found = true;
        self.last_key_event = None;
        self.show_drawing = true;
        effects.open_shortcut_settings = true;
        assert(self@ =~= on_shortcut_settings(s, *old(effects)).0);
    }

    fn fire_format_settings(&mut self, key: &Key, effects: &mut KeyUpEffects)
        requires
            old(self).wf(),
        ensures
            final(self).wf(),
            (final(self)@, *final(effects)) == on_format_settings(old(self)@, *old(effects), key@),
    {
        let ghost s = self@;
        self.selection.is_dragging = false;
        self.selection.is_selecting = false;
        self.selection.modify = false;
        self.is_found = true;
        self.selection.hide_buttons = false;
        self.attivazione.clear();
        self.last_key_event = Some(key.duplicate());
        effects.open_format_settings = true;
        assert(self@ =~= on_format_settings(s, *old(effects), key@).0);
    }

    fn fire_clipboard(&mut self, has_image: bool, effects: &mut KeyUpEffects)
        requires
            old(self).wf(),
        ensures
            final(self).wf(),
            (final(self)@, *final(effects)) == on_clipboard(old(self)@, *old(effects), has_image),
    {
        let ghost s = self@;
        self.attivazione.clear();
        self.is_found = true;
        self.last_key_event = None;
        effects.copy_to_clipboard = has_image;
        assert(self@ =~= on_clipboard(s, *old(effects), has_image).0);
    }

    fn fire_entire_screen(&mut self, key: &Key)
        requires
            old(self).wf(),
        ensures
            final(self).wf(),
            final(self)@ == on_entire_screen(old(self)@, no_effects(), key@).0,
    {
        let ghost s = self@;
        self.selection.hide_buttons = true;
        self.selection.capture_screen = true;
        self.selection.end_position = None;
        self.selection.end_position_to_display = None;
        self.selection.start_position_to_display = None;
        self.selection.start_position = None;
        self.selection.is_dragging = false;
        self.selection.is_selecting = false;
        self.attivazione.clear();
        self.last_key_event = Some(key.duplicate());
        self.is_found = true;
        assert(self@ =~= on_entire_screen(s, no_effects(), key@).0);
    }

    /// Looks at hotkey `i` after the release of `key`.
    fn hotkey_step_exec(&mut self, i: usize, key: &Key, has_image: bool, effects: &mut KeyUpEffects)
        requires
            i < 8,
            old(self).wf(),
            (consulted(i as int, old(self)@) && old(self)@.released.len() > 0) ==> i
                < old(self)@.hotkeys.len(),
        ensures
            final(self).wf(),
            (final(self)@, *final(effects)) == hotkey_step(
                i as int,
                old(self)@,
                *old(effects),
                key@,
                has_image,
            ),
    {
        if i > 0 && self.is_found {
            return;
        }
        if !self.hotkey_fires(i) {
            return;
        }
        if i == 0 {
            self.fire_save(key, has_image, effects);
        } else if i == 1 {
            self.fire_start(key);
        } else if i == 2 {
            effects.quit_app = true;
        } else if i == 3 {
            self.fire_edit(key);
        } else if i == 4 {
            self.fire_shortcut_settings(effects);
        } else if i == 5 {
            self.fire_format_settings(key, effects);
        } else if i == 6 {
            self.fire_clipboard(has_image, effects);
        } else {
            self.fire_entire_screen(key);
        }
    }

    /// The press of `key`.
    pub fn key_down(&mut self, key: &Key)
        requires
            old(self).wf(),
            !(key@ == KeyView::CapsLock || old(self)@.pressed.contains(key@)) ==> old(self).count
                < i32::MAX,
        ensures
            final(self).wf(),
            final(self)@ == after_key_down(old(self)@, key@),
    {
        let ghost s = self@;
        if !key.is_caps_lock() {
            if !holds_key(&self.tasti, key) {
                let recorded = key.normalize();
                insert_key(&mut self.tasti, recorded);
                self.is_found = false;
                self.count = self.count + 1;
            }
        }
        assert(self@ =~= after_key_down(s, key@));
    }

    /// The release of `key`, with `has_image` telling whether an image has
    /// been captured. Returns what the release asks of the rest of the
    /// program, or `None` when the hotkeys that the release has to look at
    /// are not all there.
    pub fn try_key_up(&mut self, key: &Key, has_image: bool) -> (r: Option<KeyUpEffects>)
        requires
            old(self).wf(),
            key@ != KeyView::CapsLock ==> after_release(old(self)@, key@).count >= i32::MIN,
        ensures
            final(self).wf(),
            r is None <==> key_up_misses_hotkey(old(self)@, key@, has_image),
            r matches Some(effects) ==> (final(self)@, effects) == after_key_up(
                old(self)@,
                key@,
                has_image,
            ),
    {
        let mut effects = KeyUpEffects {
            save_image: false,
            quit_app: false,
            open_shortcut_settings: false,
            open_format_settings: false,
            copy_to_clipboard: false,
        };
        if key.is_caps_lock() {
            return Some(effects);
        }
        let ghost s = self@;
        let recorded = key.normalize();
        if holds_key(&self.tasti, &recorded) && !holds_key(&self.attivazione, &recorded) {
            insert_key(&mut self.attivazione, recorded.duplicate());
            remove_key(&mut self.tasti, &recorded);
            self.count = self.count - 1;
        }
        let ghost s1 = self@;
        assert(s1 =~= after_release(s, key@));
        proof {
            lemma_distinct_len(self.attivazione@);
        }
        if self.count <= 0 && self.attivazione.len() > 0 {
            self.count = 0;
            let ghost start = self@;
            assert(start =~= CaptureView { count: 0, ..s1 });
            assert(completes(s1));
            let mut i: usize = 0;
            while i < 8
                invariant
                    i <= 8,
                    self.wf(),
                    hotkeys_from(i as int, self@, effects, key@, has_image) == hotkeys_from(
                        0,
                        start,
                        no_effects(),
                        key@,
                        has_image,
                    ),
                    hotkeys_present_from(i as int, self@, effects, key@, has_image)
                        == hotkeys_present_from(0, start, no_effects(), key@, has_image),
                    self.count == 0,
                    s == old(self)@,
                    key@ != KeyView::CapsLock,
                    s1 == after_release(s, key@),
                    completes(s1),
                    start == (CaptureView { count: 0, ..s1 }),
                decreases 8 - i,
            {
                proof {
                    lemma_distinct_len(self.attivazione@);
                }
                if (i == 0 || !self.is_found) && self.attivazione.len() > 0 && i >= self.hotkeys.len() {
                    assert(self@.released.len() > 0);
                    assert(self@.hotkeys.len() == self.hotkeys@.len());
                    assert(!hotkeys_present_from(i as int, self@, effects, key@, has_image));
                    return None;
                }
                self.hotkey_step_exec(i, key, has_image, &mut effects);
                i = i + 1;
            }
            self.attivazione.clear();
            let ghost s2 = hotkeys_from(0, start, no_effects(), key@, has_image).0;
            assert(self@ =~= CaptureView { released: Set::empty(), count: 0, ..s2 });
        } else {
            self.count = 0;
            assert(self@ =~= CaptureView { count: 0, ..s1 });
        }
        Some(effects)
    }

    /// The release of `key` when the hotkeys it looks at are all there.
    pub fn key_up(&mut self, key: &Key, has_image: bool) -> (effects: KeyUpEffects)
        requires
            old(self).wf(),
            key@ != KeyView::CapsLock ==> after_release(old(self)@, key@).count >= i32::MIN,
            !key_up_misses_hotkey(old(self)@, key@, has_image),
        ensures
            final(self).wf(),
            (final(self)@, effects) == after_key_up(old(self)@, key@, has_image),
    {
        match self.try_key_up(key, has_image) {
            Some(effects) => effects,
            None => KeyUpEffects {
                save_image: false,
                quit_app: false,
                open_shortcut_settings: false,
                open_format_settings: false,
                copy_to_clipboard: false,
            },
        }
    }

    /// Replaces the hotkeys with the ones built from `settings` (whose key
    /// texts with the `Shift` modifier are put in upper case first). When
    /// the adjusted settings are valid, a window switch begins: to the
    /// drawing window when the settings were opened from it, else to the
    /// choice of image format.
    pub fn apply_shortcuts(&mut self, settings: &mut ShortcutSettings) -> (outcome: ApplyOutcome)
        requires
            old(self).wf(),
        ensures
            final(self).wf(),
            old(settings).adjusted(&*final(settings)),
            final(self)@ == (CaptureView {
                hotkeys: Seq::new(
                    binding_count() as nat,
                    |i: int| hotkey_keys(final(settings).binding(i).0, final(settings).binding(i).1),
                ),
                switch_window: if settings_valid(&*final(settings)) {
                    true
                } else {
                    old(self).switch_window
                },
                ..old(self)@
            }),
            outcome == (if !settings_valid(&*final(settings)) {
                ApplyOutcome::Stay
            } else if old(self).show_drawing {
                ApplyOutcome::OpenDrawingArea
            } else {
                ApplyOutcome::OpenFormatSettings
            }),
    {
        let ghost s = self@;
        self.hotkeys = settings.build_hotkeys();
        proof {
            assert forall|i: int| 0 <= i < self.hotkeys@.len() implies distinct(
                #[trigger] self.hotkeys@[i].keys@,
            ) by {
                lemma_hotkey_keys_distinct(settings.binding(i).0, settings.binding(i).1);
                assert(self.hotkeys@[i]@ == hotkey_keys(settings.binding(i).0, settings.binding(i).1));
            }
        }
        let outcome = if are_all_fields_completed(settings) && !some_fields_are_equal(settings) {
            self.switch_window = true;
            if self.show_drawing {
                ApplyOutcome::OpenDrawingArea
            } else {
                ApplyOutcome::OpenFormatSettings
            }
        } else {
            ApplyOutcome::Stay
        };
        assert(self@.hotkeys =~= Seq::new(
            binding_count() as nat,
            |i: int| hotkey_keys(settings.binding(i).0, settings.binding(i).1),
        ));
        outcome
    }

    /// A request to close the window: it quits the program unless a window
    /// switch is under way, which it ends.
    pub fn window_close_requested(&mut self) -> (quit: bool)
        ensures
            quit == !old(self).switch_window,
            *final(self) == (CaptureState { switch_window: false, ..*old(self) }),
    {
        if !self.switch_window {
            true
        } else {
            self.switch_window = false;
            false
        }
    }

    /// Begins a window switch, as the confirmation of a choice does.
    pub fn begin_window_switch(&mut self)
        ensures
            *final(self) == (CaptureState { switch_window: true, ..*old(self) }),
    {
        self.switch_window = true;
    }

    /// Leaves the drawing window for the shortcut settings: editing stops,
    /// the hotkeys are dropped, and the settings will lead back to the
    /// drawing window.
    pub fn open_shortcut_settings(&mut self)
        requires
            old(self).wf(),
        ensures
            final(self).wf(),
            final(self)@ == (CaptureView {
                selection: Selection {
                    is_dragging: false,
                    is_selecting: false,
                    modify: false,
                    ..old(self).selection
                },
                hotkeys: Seq::empty(),
                is_found: false,
                last_key_event: None,
                show_drawing: true,
                ..old(self)@
            }),
    {
        let ghost s = self@;
        self.selection.is_dragging = false;
        self.selection.is_selecting = false;
        self.selection.modify = false;
        self.hotkeys.clear();
        self.is_found = false;
        self.last_key_event = None;
        self.show_drawing = true;
        assert(self@.hotkeys =~= Seq::empty());
    }

    /// Leaves the drawing window for another choice (image format, naming
    /// convention): editing stops and no hotkey counts as fired.
    pub fn open_other_settings(&mut self)
        requires
            old(self).wf(),
        ensures
            final(self).wf(),
            final(self)@ == (CaptureView {
                selection: Selection {
                    is_dragging: false,
                    is_selecting: false,
                    modify: false,
                    ..old(self).selection
                },
                is_found: false,
                last_key_event: None,
                ..old(self)@
            }),
    {
        self.selection.is_dragging = false;
        self.selection.is_selecting = false;
        self.selection.modify = false;
        self.is_found = false;
        self.last_key_event = None;
    }

    /// The state at start-up: nothing selected or pressed, no hotkeys yet.
    pub fn new(empty_rect: crate::selection::Rect<C>) -> (s: CaptureState<C>)
        ensures
            s.wf(),
            s.selection == Selection::<C>::fresh(empty_rect),
            s@.pressed == Set::<KeyView>::empty(),
            s@.released == Set::<KeyView>::empty(),
            s@.count == 0,
            !s@.is_found,
            s@.hotkeys == Seq::<Seq<KeyView>>::empty(),
            s@.last_key_event is None,
            !s@.show_drawing,
            !s@.switch_window,
    {
        let s = CaptureState {
            selection: Selection::new(empty_rect),
            tasti: Vec::new(),
            attivazione: Vec::new(),
            count: 0,
            is_found: false,
            hotkeys: Vec::new(),
            last_key_event: None,
            show_drawing: false,
            switch_window: false,
        };
        assert(s@.pressed =~= Set::<KeyView>::empty());
        assert(s@.released =~= Set::<KeyView>::empty());
        assert(s@.hotkeys =~= Seq::<Seq<KeyView>>::empty());
        s
    }
}

} // verus!
