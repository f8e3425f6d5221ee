//! The user's shortcut settings: eight (modifier, key) bindings entered as
//! text, their validation, and the hotkeys built from them.
use vstd::prelude::*;
use crate::keys::{Key, KeyView, key_views, make_lowercase, make_uppercase, uppercase, lowercase};

verus! {

/// A hotkey: the keys that must be released together to fire it.
#[derive(Clone, Debug)]
pub struct MyHotkey {
    pub keys: Vec<Key>,
}

impl View for MyHotkey {
    type V = Seq<KeyView>;

    open spec fn view(&self) -> Seq<KeyView> {
        key_views(self.keys@)
    }
}

/// The eight bindings, each a modifier name (`Ctrl`, `Shift`, `Escape`,
/// `Enter` or `None`) and the text of a key.
#[derive(Clone, Debug)]
pub struct ShortcutSettings {
    pub save_image_modifier: String,
    pub save_image_key: String,
    pub start_image_modifier: String,
    pub start_image_key: String,
    pub quit_app_modifier: String,
    pub quit_app_key: String,
    pub edit_image_modifier: String,
    pub edit_image_key: String,
    pub restart_app_modifier: String,
    pub restart_app_key: String,
    pub restart_format_app_modifier: String,
    pub restart_format_app_key: String,
    pub copy_clipboard_modifier: String,
    pub copy_clipboard_key: String,
    pub entire_screen_modifier: String,
    pub entire_screen_key: String,
}

/// The number of bindings, and of the hotkeys built from them.
pub open spec fn binding_count() -> int {
    8
}

/// The bindings that the validation looks at: all but the last
/// (entire-screen) one.
pub open spec fn checked_count() -> int {
    7
}

pub open spec fn text_none() -> Seq<char> {
    seq!['N', 'o', 'n', 'e']
}

pub open spec fn text_ctrl() -> Seq<char> {
    seq!['C', 't', 'r', 'l']
}

pub open spec fn text_shift() -> Seq<char> {
    seq!['S', 'h', 'i', 'f', 't']
}

pub open spec fn text_escape() -> Seq<char> {
    seq!['E', 's', 'c', 'a', 'p', 'e']
}

pub open spec fn text_enter() -> Seq<char> {
    seq!['E', 'n', 't', 'e', 'r']
}

/// Whether a string holds exactly the text of a literal.
pub fn text_is(s: &String, lit: &str) -> (r: bool)
    ensures
        r == (s@ == lit@),
{
    let l = String::from_str(lit);
    s.eq(&l)
}

fn is_none_text(s: &String) -> (r: bool)
    ensures
        r == (s@ == text_none()),
{
    proof {
        reveal_strlit("None");
        assert("None"@ =~= text_none());
    }
    text_is(s, "None")
}

fn is_shift_text(s: &String) -> (r: bool)
    ensures
        r == (s@ == text_shift()),
{
    proof {
        reveal_strlit("Shift");
        assert("Shift"@ =~= text_shift());
    }
    text_is(s, "Shift")
}

/// The modifier key that a modifier name selects, if any.
pub open spec fn modifier_of(m: Seq<char>) -> Option<KeyView> {
    if m == text_ctrl() {
        Some(KeyView::Control)
    } else if m == text_shift() {
        Some(KeyView::Shift)
    } else if m == text_escape() {
        Some(KeyView::Escape)
    } else if m == text_enter() {
        Some(KeyView::Enter)
    } else {
        None
    }
}

/// The modifier key that a modifier name selects, if any.
pub fn modifier_key(m: &String) -> (r: Option<Key>)
    ensures
        r is None <==> modifier_of(m@) is None,
        r matches Some(k) ==> modifier_of(m@) == Some(k@),
{
    proof {
        reveal_strlit("Ctrl");
        reveal_strlit("Shift");
        reveal_strlit("Escape");
        reveal_strlit("Enter");
        assert("Ctrl"@ =~= text_ctrl());
        assert("Shift"@ =~= text_shift());
        assert("Escape"@ =~= text_escape());
        assert("Enter"@ =~= text_enter());
    }
    if text_is(m, "Ctrl") {
        Some(Key::Control)
    } else if text_is(m, "Shift") {
        Some(Key::Shift)
    } else if text_is(m, "Escape") {
        Some(Key::Escape)
    } else if text_is(m, "Enter") {
        Some(Key::Enter)
    } else {
        None
    }
}

/// The key text of a binding once its modifier is applied: with `Shift`
/// the text is put in upper case.
pub open spec fn adjusted_key(m: Seq<char>, k: Seq<char>) -> Seq<char> {
    if m == text_shift() {
        uppercase(k)
    } else {
        k
    }
}

/// The keys of the hotkey of a binding whose key text is already adjusted:
/// the character key with that text (when the text is not empty), then the
/// modifier (when the name selects one).
pub open spec fn hotkey_keys(m: Seq<char>, k: Seq<char>) -> Seq<KeyView> {
    let first: Seq<KeyView> = if k.len() > 0 {
        seq![KeyView::Character(k)]
    } else {
        Seq::empty()
    };
    match modifier_of(m) {
        Some(mk) => first.push(mk),
        None => first,
    }
}

/// Applies the modifier to the key text of one binding and builds its
/// hotkey.
fn build_one(m: &String, k: &mut String) -> (h: MyHotkey)
    ensures
        final(k)@ == adjusted_key(m@, old(k)@),
        h@ == hotkey_keys(m@, final(k)@),
{
    if is_shift_text(m) {
        make_uppercase(k);
    }
    let mut keys: Vec<Key> = Vec::new();
    if k.as_str().unicode_len() > 0 {
        keys.push(Key::Character(k.clone()));
    }
    let modifier = modifier_key(m);
    match modifier {
        Some(mk) => {
            keys.push(mk);
        },
        None => {},
    }
    let h = MyHotkey { keys };
    assert(h@ =~= hotkey_keys(m@, k@));
    h
}

impl ShortcutSettings {
    /// Binding `i`, in the order of the hotkeys: save, start, quit, edit,
    /// restart (choose shortcuts), restart format, copy to clipboard,
    /// entire screen.
    pub open spec fn binding(&self, i: int) -> (Seq<char>, Seq<char>) {
        if i == 0 {
            (self.save_image_modifier@, self.save_image_key@)
        } else if i == 1 {
            (self.start_image_modifier@, self.start_image_key@)
        } else if i == 2 {
            (self.quit_app_modifier@, self.quit_app_key@)
        } else if i == 3 {
            (self.edit_image_modifier@, self.edit_image_key@)
        } else if i == 4 {
            (self.restart_app_modifier@, self.restart_app_key@)
        } else if i == 5 {
            (self.restart_format_app_modifier@, self.restart_format_app_key@)
        } else if i == 6 {
            (self.copy_clipboard_modifier@, self.copy_clipboard_key@)
        } else {
            (self.entire_screen_modifier@, self.entire_screen_key@)
        }
    }

    /// Binding `i` itself.
    pub fn binding_at(&self, i: usize) -> (r: (&String, &String))
        requires
            i < 8,
        ensures
            (r.0@, r.1@) == self.binding(i as int),
    {
        if i == 0 {
            (&self.save_image_modifier, &self.save_image_key)
        } else if i == 1 {
            (&self.start_image_modifier, &self.start_image_key)
        } else if i == 2 {
            (&self.quit_app_modifier, &self.quit_app_key)
        } else if i == 3 {
            (&self.edit_image_modifier, &self.edit_image_key)
        } else if i == 4 {
            (&self.restart_app_modifier, &self.restart_app_key)
        } else if i == 5 {
            (&self.restart_format_app_modifier, &self.restart_format_app_key)
        } else if i == 6 {
            (&self.copy_clipboard_modifier, &self.copy_clipboard_key)
        } else {
            (&self.entire_screen_modifier, &self.entire_screen_key)
        }
    }

    /// Whether bindings `i` and `j` (`i < j`) count as the same shortcut.
    /// For the pair (start, quit) the start key is compared with the quit
    /// *modifier*, not with the quit key.
    pub open spec fn clash(&self, i: int, j: int) -> bool {
        if i == 1 && j == 2 {
            self.binding(1).0 == self.binding(2).0 && self.binding(1).1 == self.binding(2).0
        } else {
            self.binding(i) == self.binding(j)
        }
    }

    /// Whether a binding has been filled in: a modifier other than `None`,
    /// or a key text that is not empty.
    pub open spec fn filled(&self, i: int) -> bool {
        self.binding(i).0 != text_none() || self.binding(i).1.len() > 0
    }

    /// The settings once every binding with the `Shift` modifier has its key
    /// text in upper case.
    pub open spec fn adjusted(&self, other: &ShortcutSettings) -> bool {
        forall|i: int|
            0 <= i < binding_count() ==> #[trigger] other.binding(i) == (
                self.binding(i).0,
                adjusted_key(self.binding(i).0, self.binding(i).1),
            )
    }
}

/// Whether two of the seven checked bindings are the same shortcut.
pub fn some_fields_are_equal(data: &ShortcutSettings) -> (r: bool)
    ensures
        r == exists|i: int, j: int| 0 <= i < j < checked_count() && #[trigger] data.clash(i, j),
{
    let mut i: usize = 0;
    while i < 7
        invariant
            i <= 7,
            forall|a: int, b: int| 0 <= a < i && a < b < checked_count() ==> !#[trigger] data.clash(a, b),
        decreases 7 - i,
    {
        let mut j: usize = i + 1;
        while j < 7
            invariant
                i < 7,
                i + 1 <= j <= 7,
                forall|a: int, b: int| 0 <= a < i && a < b < checked_count() ==> !#[trigger] data.clash(a, b),
                forall|b: int| i < b < j ==> !#[trigger] data.clash(i as int, b),
            decreases 7 - j,
        {
            let (mi, ki) = data.binding_at(i);
            let (mj, kj) = data.binding_at(j);
            let same = if i == 1 && j == 2 {
                mi.eq(mj) && ki.eq(mj)
            } else {
                mi.eq(mj) && ki.eq(kj)
            };
            if same {
                assert(data.clash(i as int, j as int));
                return true;
            }
            j = j + 1;
        }
        i = i + 1;
    }
    false
}

/// Whether all seven checked bindings are filled in.
pub fn are_all_fields_completed(data: &ShortcutSettings) -> (r: bool)
    ensures
        r == forall|i: int| 0 <= i < checked_count() ==> #[trigger] data.filled(i),
{
    let mut i: usize = 0;
    while i < 7
        invariant
            i <= 7,
            forall|a: int| 0 <= a < i ==> #[trigger] data.filled(a),
        decreases 7 - i,
    {
        let (m, k) = data.binding_at(i);
        if is_none_text(m) && k.as_str().unicode_len() == 0 {
            assert(!data.filled(i as int));
            return false;
        }
        i = i + 1;
    }
    true
}


impl ShortcutSettings {
    /// Builds the eight hotkeys, in binding order, after putting in upper
    /// case the key text of every binding whose modifier is `Shift`.
    pub fn build_hotkeys(&mut self) -> (hotkeys: Vec<MyHotkey>)
        ensures
            old(self).adjusted(&*final(self)),
            hotkeys@.len() == binding_count(),
            forall|i: int|
                0 <= i < binding_count() ==> #[trigger] hotkeys@[i]@ == hotkey_keys(
                    final(self).binding(i).0,
                    final(self).binding(i).1,
                ),
    {
        let mut hotkeys: Vec<MyHotkey> = Vec::new();
        let h = build_one(&self.save_image_modifier, &mut self.save_image_key);
        hotkeys.push(h);
        let h = build_one(&self.start_image_modifier, &mut self.start_image_key);
        hotkeys.push(h);
        let h = build_one(&self.quit_app_modifier, &mut self.quit_app_key);
        hotkeys.push(h);
        let h = build_one(&self.edit_image_modifier, &mut self.edit_image_key);
        hotkeys.push(h);
        let h = build_one(&self.restart_app_modifier, &mut self.restart_app_key);
        hotkeys.push(h);
        let h = build_one(&self.restart_format_app_modifier, &mut self.restart_format_app_key);
        hotkeys.push(h);
        let h = build_one(&self.copy_clipboard_modifier, &mut self.copy_clipboard_key);
        hotkeys.push(h);
        let h = build_one(&self.entire_screen_modifier, &mut self.entire_screen_key);
        hotkeys.push(h);
        hotkeys
    }
}

/// Whether the key field of a binding is disabled: a binding whose modifier
/// is `Escape` or `Enter` takes no key.
pub fn key_field_disabled(modifier: &String) -> (r: bool)
    ensures
        r == (modifier@ == text_escape() || modifier@ == text_enter()),
{
    proof {
        reveal_strlit("Escape");
        reveal_strlit("Enter");
        assert("Escape"@ =~= text_escape());
        assert("Enter"@ =~= text_enter());
    }
    text_is(modifier, "Escape") || text_is(modifier, "Enter")
}

/// What a key field holds before a key press reaches it: a press empties a
/// field that already holds text, so the field keeps one key at a time.
pub fn key_field_before_input(text: &mut String, is_key_down: bool)
    ensures
        final(text)@ == (if is_key_down && old(text)@.len() > 0 {
            Seq::empty()
        } else {
            old(text)@
        }),
{
    if is_key_down && text.as_str().unicode_len() >= 1 {
        *text = String::new();
    }
}

/// What a key field holds after an input: its text in lower case, or
/// nothing when the field is disabled.
pub fn key_field_after_input(text: &mut String, disabled: bool)
    ensures
        final(text)@ == (if disabled {
            Seq::empty()
        } else {
            lowercase(old(text)@)
        }),
{
    make_lowercase(text);
    if disabled {
        *text = String::new();
    }
}


/// The note shown while a checked binding is not filled in.
pub fn missing_fields_message(data: &ShortcutSettings) -> (r: String)
    ensures
        r@ == (if forall|i: int| 0 <= i < checked_count() ==> #[trigger] data.filled(i) {
            Seq::<char>::empty()
        } else {
            "Per favore, compila tutti i campi."@
        }),
{
    if are_all_fields_completed(data) {
        String::new()
    } else {
        String::from_str("Per favore, compila tutti i campi.")
    }
}

/// The note shown while two checked bindings are the same shortcut.
pub fn duplicate_fields_message(data: &ShortcutSettings) -> (r: String)
    ensures
        r@ == (if exists|i: int, j: int| 0 <= i < j < checked_count() && #[trigger] data.clash(i, j) {
            "Stesse shortkeys non sono ammesse"@
        } else {
            Seq::<char>::empty()
        }),
{
    if some_fields_are_equal(data) {
        String::from_str("Stesse shortkeys non sono ammesse")
    } else {
        String::new()
    }
}

impl ShortcutSettings {
    /// The bindings the program starts with: save `Enter`, start `s`, quit
    /// `Escape`, edit `m`, shortcut settings `Shift`, format settings
    /// `Ctrl`, copy `Ctrl`+`s`, entire screen `a`.
    pub fn initial() -> (s: ShortcutSettings)
        ensures
            s.save_image_modifier@ == "Enter"@,
            s.save_image_key@ == Seq::<char>::empty(),
            s.start_image_modifier@ == "None"@,
            s.start_image_key@ == "s"@,
            s.quit_app_modifier@ == "Escape"@,
            s.quit_app_key@ == Seq::<char>::empty(),
            s.edit_image_modifier@ == "None"@,
            s.edit_image_key@ == "m"@,
            s.restart_app_modifier@ == "Shift"@,
            s.restart_app_key@ == Seq::<char>::empty(),
            s.restart_format_app_modifier@ == "Ctrl"@,
            s.restart_format_app_key@ == Seq::<char>::empty(),
            s.copy_clipboard_modifier@ == "Ctrl"@,
            s.copy_clipboard_key@ == "s"@,
            s.entire_screen_modifier@ == "None"@,
            s.entire_screen_key@ == "a"@,
    {
        ShortcutSettings {
            save_image_modifier: String::from_str("Enter"),
            save_image_key: String::new(),
            start_image_modifier: String::from_str("None"),
            start_image_key: String::from_str("s"),
            quit_app_modifier: String::from_str("Escape"),
            quit_app_key: String::new(),
            edit_image_modifier: String::from_str("None"),
            edit_image_key: String::from_str("m"),
            restart_app_modifier: String::from_str("Shift"),
            restart_app_key: String::new(),
            restart_format_app_modifier: String::from_str("Ctrl"),
            restart_format_app_key: String::new(),
            copy_clipboard_modifier: String::from_str("Ctrl"),
            copy_clipboard_key: String::from_str("s"),
            entire_screen_modifier: String::from_str("None"),
            entire_screen_key: String::from_str("a"),
        }
    }
}

} // verus!
