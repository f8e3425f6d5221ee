//! Keys as the hotkey logic sees them, and duplicate-free lists of keys.
use vstd::prelude::*;

verus! {

/// A key of the keyboard. The four keys that can serve as a modifier and
/// Caps Lock have their own variants; every other key is either a character
/// key (with the text it types) or another named key (with its name).
#[derive(Clone, Debug)]
pub enum Key {
    Character(String),
    Named(String),
    Control,
    Shift,
    Enter,
    Escape,
    CapsLock,
}

/// The mathematical value of a `Key`.
pub enum KeyView {
    Character(Seq<char>),
    Named(Seq<char>),
    Control,
    Shift,
    Enter,
    Escape,
    CapsLock,
}

impl View for Key {
    type V = KeyView;

    open spec fn view(&self) -> KeyView {
        match self {
            Key::Character(s) => KeyView::Character(s@),
            Key::Named(s) => KeyView::Named(s@),
            Key::Control => KeyView::Control,
            Key::Shift => KeyView::Shift,
            Key::Enter => KeyView::Enter,
            Key::Escape => KeyView::Escape,
            Key::CapsLock => KeyView::CapsLock,
        }
    }
}

/// A letter `A`..`Z` becomes `a`..`z`; every other character is kept.
pub open spec fn lower_char(c: char) -> char {
    if 'A' <= c && c <= 'Z' {
        ((c as u32) + 32) as char
    } else {
        c
    }
}

/// A letter `a`..`z` becomes `A`..`Z`; every other character is kept.
pub open spec fn upper_char(c: char) -> char {
    if 'a' <= c && c <= 'z' {
        ((c as u32) - 32) as char
    } else {
        c
    }
}

pub open spec fn lowercase(s: Seq<char>) -> Seq<char> {
    s.map_values(|c: char| lower_char(c))
}

pub open spec fn uppercase(s: Seq<char>) -> Seq<char> {
    s.map_values(|c: char| upper_char(c))
}

/// `str::to_ascii_lowercase`: std documents that ASCII letters `A`..`Z`
/// become `a`..`z` and every other character is unchanged.
#[verifier::external_body]
pub(crate) fn ascii_lowercase(s: &str) -> (r: String)
    ensures
        r@ == lowercase(s@),
{
    s.to_ascii_lowercase()
}

/// `String::make_ascii_uppercase`: std documents that ASCII letters
/// `a`..`z` become `A`..`Z` and every other character is unchanged.
#[verifier::external_body]
pub(crate) fn make_uppercase(s: &mut String)
    ensures
        final(s)@ == uppercase(old(s)@),
{
    s.make_ascii_uppercase()
}

/// `String::make_ascii_lowercase`: the mirror of `make_uppercase`.
#[verifier::external_body]
pub(crate) fn make_lowercase(s: &mut String)
    ensures
        final(s)@ == lowercase(old(s)@),
{
    s.make_ascii_lowercase()
}

/// Whether the key is one of the four modifier keys.
pub open spec fn is_modifier(k: KeyView) -> bool {
    ||| k == KeyView::Control
    ||| k == KeyView::Shift
    ||| k == KeyView::Enter
    ||| k == KeyView::Escape
}

/// The key under which a press is recorded: modifiers as they are, any
/// other key as the character key whose text is its own text (a character
/// key's text, another key's name) in lower case.
pub open spec fn normalized(k: KeyView) -> KeyView {
    match k {
        KeyView::Character(s) => KeyView::Character(lowercase(s)),
        KeyView::Named(s) => KeyView::Character(lowercase(s)),
        _ => k,
    }
}

impl Key {
    /// A copy of the key.
    pub fn duplicate(&self) -> (r: Key)
        ensures
            r@ == self@,
    {
        match self {
            Key::Character(s) => Key::Character(s.clone()),
            Key::Named(s) => Key::Named(s.clone()),
            Key::Control => Key::Control,
            Key::Shift => Key::Shift,
            Key::Enter => Key::Enter,
            Key::Escape => Key::Escape,
            Key::CapsLock => Key::CapsLock,
        }
    }

    /// Whether two keys are the same key.
    pub fn same_as(&self, other: &Key) -> (r: bool)
        ensures
            r == (self@ == other@),
    {
        match (self, other) {
            (Key::Character(a), Key::Character(b)) => a.eq(b),
            (Key::Named(a), Key::Named(b)) => a.eq(b),
            (Key::Control, Key::Control) => true,
            (Key::Shift, Key::Shift) => true,
            (Key::Enter, Key::Enter) => true,
            (Key::Escape, Key::Escape) => true,
            (Key::CapsLock, Key::CapsLock) => true,
            _ => false,
        }
    }

    pub fn is_caps_lock(&self) -> (r: bool)
        ensures
            r == (self@ == KeyView::CapsLock),
    {
        match self {
            Key::CapsLock => true,
            _ => false,
        }
    }

    pub fn is_modifier_key(&self) -> (r: bool)
        ensures
            r == is_modifier(self@),
    {
        match self {
            Key::Control | Key::Shift | Key::Enter | Key::Escape => true,
            _ => false,
        }
    }

    /// The key under which a press of this key is recorded.
    pub fn normalize(&self) -> (r: Key)
        ensures
            r@ == normalized(self@),
    {
        match self {
            Key::Character(s) => Key::Character(ascii_lowercase(s.as_str())),
            Key::Named(s) => Key::Character(ascii_lowercase(s.as_str())),
            _ => self.duplicate(),
        }
    }
}

/// The values of a list of keys.
pub open spec fn key_views(v: Seq<Key>) -> Seq<KeyView> {
    v.map_values(|k: Key| k@)
}

/// The set of keys in a list.
pub open spec fn key_set(v: Seq<Key>) -> Set<KeyView> {
    key_views(v).to_set()
}

/// The position of a key in a list, if it is there.
pub fn position_of(v: &Vec<Key>, k: &Key) -> (r: Option<usize>)
    ensures
        r is None <==> !key_views(v@).contains(k@),
        r matches Some(i) ==> i < v@.len() && v@[i as int]@ == k@,
{
    let mut i: usize = 0;
    while i < v.len()
        invariant
            i <= v@.len(),
            forall|j: int| 0 <= j < i ==> v@[j]@ != k@,
        decreases v@.len() - i,
    {
        if v[i].same_as(k) {
            assert(key_views(v@)[i as int] == k@);
            return Some(i);
        }
        i = i + 1;
    }
    proof {
        if key_views(v@).contains(k@) {
            let j = choose|j: int| 0 <= j < key_views(v@).len() && key_views(v@)[j] == k@;
            assert(v@[j]@ != k@);
        }
    }
    None
}

/// Whether a key is in a list.
pub fn holds_key(v: &Vec<Key>, k: &Key) -> (r: bool)
    ensures
        r == key_views(v@).contains(k@),
{
    position_of(v, k).is_some()
}


/// A list of keys in which no key occurs twice.
pub open spec fn distinct(v: Seq<Key>) -> bool {
    key_views(v).no_duplicates()
}

/// In a list without repetitions there are as many keys as entries.
pub proof fn lemma_distinct_len(v: Seq<Key>)
    requires
        distinct(v),
    ensures
        key_set(v).len() == v.len(),
        key_set(v).finite(),
{
    key_views(v).unique_seq_to_set();
}

/// Adds a key to a list unless it is already there.
pub fn insert_key(v: &mut Vec<Key>, k: Key)
    requires
        distinct(old(v)@),
    ensures
        distinct(final(v)@),
        key_set(final(v)@) == key_set(old(v)@).insert(k@),
{
    if !holds_key(v, &k) {
        let ghost before = v@;
        let ghost kv = k@;
        v.push(k);
        assert(key_views(v@) =~= key_views(before).push(kv));
        assert(key_set(v@) =~= key_set(before).insert(kv)) by {
            assert forall|x: KeyView| key_set(v@).contains(x) == key_set(before).insert(kv).contains(x) by {
                if key_set(before).contains(x) {
                    let j = choose|j: int| 0 <= j < key_views(before).len() && key_views(before)[j] == x;
                    assert(key_views(v@)[j] == x);
                }
                if x == kv {
                    assert(key_views(v@)[before.len() as int] == x);
                }
            }
        }
    } else {
        assert(key_set(v@) =~= key_set(v@).insert(k@));
    }
}

/// Removes a key from a list (nothing happens if it is not there).
pub fn remove_key(v: &mut Vec<Key>, k: &Key)
    requires
        distinct(old(v)@),
    ensures
        distinct(final(v)@),
        key_set(final(v)@) == key_set(old(v)@).remove(k@),
{
    match position_of(v, k) {
        Some(i) => {
            let ghost before = v@;
            let _gone = v.remove(i);
            proof {
                before.remove_ensures(i as int);
                let kb = key_views(before);
                let ka = key_views(v@);
                assert(ka =~= kb.remove(i as int));
                kb.remove_ensures(i as int);
                assert forall|x: KeyView| key_set(v@).contains(x) == key_set(before).remove(k@).contains(x) by {
                    if key_set(v@).contains(x) {
                        let j = choose|j: int| 0 <= j < ka.len() && ka[j] == x;
                        assert(kb[i as int] == k@);
                        if j < i {
                            assert(kb[j] == x);
                            assert(x != k@);
                        } else {
                            assert(kb[j + 1] == x);
                            assert(x != k@);
                        }
                    }
                    if key_set(before).remove(k@).contains(x) {
                        let j = choose|j: int| 0 <= j < kb.len() && kb[j] == x;
                        assert(j != i);
                        if j < i {
                            assert(ka[j] == x);
                        } else {
                            assert(ka[j - 1] == x);
                        }
                    }
                }
                assert(key_set(v@) =~= key_set(before).remove(k@));
            }
        },
        None => {
            assert(key_set(v@) =~= key_set(v@).remove(k@));
        },
    }
}

} // verus!
