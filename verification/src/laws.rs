//! Properties that hold of the library as a whole.
use vstd::prelude::*;
use vstd::set_lib::lemma_subset_equality;
use crate::keys::{KeyView, upper_char, uppercase};
use crate::naming::{digit_char, decimal_digits, decimal_text, destination, Conventions, MyRadio, counter_after_save};
use crate::shortcuts::{
    ShortcutSettings, adjusted_key, binding_count, checked_count, hotkey_keys, modifier_of, text_ctrl,
    text_enter, text_escape, text_none, text_shift,
};
use crate::state::settings_valid;
use crate::keys::normalized;
use crate::selection::{Selection, Point, DragHandle, edited};
use crate::state::{
    CaptureView, KeyUpEffects, fires, hotkeys_from, hotkey_step, after_key_down, after_key_up, after_release, completes,
    no_effects,
};

verus! {

/// A hotkey without repeated keys fires for a non-empty set of released
/// keys exactly when its keys are the released keys.
pub proof fn law_fires_iff_same_keys(hk: Seq<KeyView>, released: Set<KeyView>)
    requires
        hk.no_duplicates(),
        released.finite(),
        released.len() > 0,
    ensures
        fires(hk, released) <==> hk.to_set() == released,
{
    hk.unique_seq_to_set();
    if fires(hk, released) {
        let x = released.choose();
        assert(released.contains(x));
        assert(hk.len() == released.len());
        assert(released.subset_of(hk.to_set()));
        lemma_subset_equality(released, hk.to_set());
    }
    if hk.to_set() == released {
        assert forall|x: KeyView| #[trigger] released.contains(x) implies (hk.contains(x) && hk.len()
            == released.len()) by {
            assert(hk.to_set().contains(x));
        }
    }
}

/// Putting a text in upper case twice is putting it in upper case once.
pub proof fn law_uppercase_idempotent(s: Seq<char>)
    ensures
        uppercase(uppercase(s)) == uppercase(s),
{
    assert forall|i: int| 0 <= i < s.len() implies #[trigger] uppercase(uppercase(s))[i] == uppercase(s)[i] by {
        let c = s[i];
        if 'a' <= c && c <= 'z' {
            assert(upper_char(c) == ((c as u32) - 32) as char);
        }
    }
    assert(uppercase(uppercase(s)) =~= uppercase(s));
}

/// Confirming the shortcut settings a second time leaves the bindings as
/// the first confirmation left them (and so builds the same hotkeys).
pub proof fn law_confirming_twice(first: ShortcutSettings, second: ShortcutSettings, third: ShortcutSettings)
    requires
        first.adjusted(&second),
        second.adjusted(&third),
    ensures
        forall|i: int| 0 <= i < binding_count() ==> #[trigger] third.binding(i) == second.binding(i),
{
    assert forall|i: int| 0 <= i < binding_count() implies #[trigger] third.binding(i) == second.binding(i) by {
        let (m, k) = first.binding(i);
        assert(second.binding(i) == (m, adjusted_key(m, k)));
        assert(third.binding(i) == (m, adjusted_key(m, adjusted_key(m, k))));
        if m == text_shift() {
            law_uppercase_idempotent(k);
        }
    }
}

/// Caps Lock does nothing, pressed or released.
pub proof fn law_caps_lock_ignored<C>(s: CaptureView<C>, has_image: bool)
    ensures
        after_key_down(s, KeyView::CapsLock) == s,
        after_key_up(s, KeyView::CapsLock, has_image) == (s, no_effects()),
{
}

/// Pressing a key that is already among the pressed keys does nothing.
pub proof fn law_repeated_press_ignored<C>(s: CaptureView<C>, k: KeyView)
    requires
        s.pressed.contains(k),
    ensures
        after_key_down(s, k) == s,
{
}

/// Every release other than Caps Lock leaves the count at zero, and a
/// release that completes a combination leaves no released key behind.
pub proof fn law_release_resets<C>(s: CaptureView<C>, k: KeyView, has_image: bool)
    requires
        k != KeyView::CapsLock,
    ensures
        after_key_up(s, k, has_image).0.count == 0,
        completes(after_release(s, k)) ==> after_key_up(s, k, has_image).0.released == Set::<
            KeyView,
        >::empty(),
{
}


/// Once a hotkey has fired, the hotkeys after the first are not looked at.
proof fn lemma_fired_stops<C>(i: int, s: CaptureView<C>, e: KeyUpEffects, k: KeyView, has_image: bool)
    requires
        1 <= i,
        s.is_found,
    ensures
        hotkeys_from(i, s, e, k, has_image) == (s, e),
    decreases 8 - i,
{
    if i < 8 {
        assert(hotkey_step(i, s, e, k, has_image) == (s, e));
        lemma_fired_stops(i + 1, s, e, k, has_image);
    }
}

/// The hotkeys after the first never ask for the image to be saved.
proof fn lemma_save_only_first<C>(i: int, s: CaptureView<C>, e: KeyUpEffects, k: KeyView, has_image: bool)
    requires
        1 <= i,
    ensures
        hotkeys_from(i, s, e, k, has_image).1.save_image == e.save_image,
    decreases 8 - i,
{
    if i < 8 {
        let (s2, e2) = hotkey_step(i, s, e, k, has_image);
        assert(e2.save_image == e.save_image);
        lemma_save_only_first(i + 1, s2, e2, k, has_image);
    }
}

/// A release that completes a combination saves the image exactly when
/// there is one and the released keys fire the save hotkey; when they do,
/// nothing else happens.
pub proof fn law_save_hotkey<C>(s: CaptureView<C>, k: KeyView, has_image: bool)
    requires
        k != KeyView::CapsLock,
        completes(after_release(s, k)),
    ensures
        after_key_up(s, k, has_image).1.save_image == (has_image && fires(
            after_release(s, k).hotkeys[0],
            after_release(s, k).released,
        )),
        fires(after_release(s, k).hotkeys[0], after_release(s, k).released) ==> after_key_up(
            s,
            k,
            has_image,
        ).1 == (KeyUpEffects { save_image: has_image, ..no_effects() }),
{
    let s1 = after_release(s, k);
    let start = CaptureView { count: 0, ..s1 };
    let (s2, e2) = hotkey_step(0, start, no_effects(), k, has_image);
    assert(hotkeys_from(0, start, no_effects(), k, has_image) == hotkeys_from(1, s2, e2, k, has_image));
    lemma_save_only_first(1, s2, e2, k, has_image);
    if fires(s1.hotkeys[0], s1.released) {
        lemma_fired_stops(1, s2, e2, k, has_image);
    }
}


proof fn lemma_digits_shape(n: nat)
    ensures
        decimal_digits(n).len() >= 1,
        n >= 10 ==> decimal_digits(n).len() >= 2,
        forall|i: int| 0 <= i < decimal_digits(n).len() ==> '0' <= #[trigger] decimal_digits(n)[i] <= '9',
    decreases n,
{
    if n >= 10 {
        lemma_digits_shape(n / 10);
    }
}

proof fn lemma_digit_char_injective(a: nat, b: nat)
    requires
        a < 10,
        b < 10,
        digit_char(a) == digit_char(b),
    ensures
        a == b,
{
}

/// Different natural numbers have different decimal texts.
proof fn lemma_digits_injective(a: nat, b: nat)
    requires
        decimal_digits(a) == decimal_digits(b),
    ensures
        a == b,
    decreases a,
{
    lemma_digits_shape(a);
    lemma_digits_shape(b);
    if a < 10 && b < 10 {
        assert(decimal_digits(a) == seq![digit_char(a)]);
        assert(decimal_digits(b) == seq![digit_char(b)]);
        assert(decimal_digits(a)[0] == digit_char(a));
        assert(decimal_digits(b)[0] == digit_char(b));
        lemma_digit_char_injective(a, b);
    } else if a >= 10 && b >= 10 {
        let da = decimal_digits(a);
        let db = decimal_digits(b);
        assert(da.last() == digit_char(a % 10));
        assert(db.last() == digit_char(b % 10));
        lemma_digit_char_injective(a % 10, b % 10);
        assert(da.drop_last() =~= decimal_digits(a / 10));
        assert(db.drop_last() =~= decimal_digits(b / 10));
        lemma_digits_injective(a / 10, b / 10);
        assert(a == 10 * (a / 10) + a % 10);
        assert(b == 10 * (b / 10) + b % 10);
    } else {
        assert(false);
    }
}

/// Different integers have different decimal texts.
pub proof fn law_decimal_text_injective(a: int, b: int)
    requires
        decimal_text(a) == decimal_text(b),
    ensures
        a == b,
{
    if a < 0 && b < 0 {
        assert(decimal_text(a).drop_first() =~= decimal_digits((-a) as nat));
        assert(decimal_text(b).drop_first() =~= decimal_digits((-b) as nat));
        lemma_digits_injective((-a) as nat, (-b) as nat);
    } else if a >= 0 && b >= 0 {
        lemma_digits_injective(a as nat, b as nat);
    } else if a < 0 {
        lemma_digits_shape(b as nat);
        assert(decimal_text(a)[0] == '-');
        assert(decimal_text(b)[0] == decimal_digits(b as nat)[0]);
    } else {
        lemma_digits_shape(a as nat);
        assert(decimal_text(b)[0] == '-');
        assert(decimal_text(a)[0] == decimal_digits(a as nat)[0]);
    }
}

/// With the numeric convention, two saves in a row go to different files:
/// the second save finds the counter the first one advanced.
pub proof fn law_numeric_saves_differ(path: Seq<char>, format: MyRadio, counter: int)
    ensures
        destination(path, Conventions::NumericConvention, format, counter, Seq::empty())
            != destination(
            path,
            Conventions::NumericConvention,
            format,
            counter_after_save(Conventions::NumericConvention, counter),
            Seq::empty(),
        ),
{
    let d1 = destination(path, Conventions::NumericConvention, format, counter, Seq::empty());
    let d2 = destination(path, Conventions::NumericConvention, format, counter + 1, Seq::empty());
    let t1 = decimal_text(counter + 1);
    let t2 = decimal_text(counter + 2);
    if d1 == d2 {
        let p: int = path.len() + 1int;
        assert(d1 =~= path + seq!['_'] + t1 + seq!['.'] + crate::naming::extension_of(format));
        assert(d2 =~= path + seq!['_'] + t2 + seq!['.'] + crate::naming::extension_of(format));
        assert(t1.len() == t2.len());
        assert(d1.subrange(p, p + t1.len() as int) =~= t1);
        assert(d2.subrange(p, p + t2.len() as int) =~= t2);
        law_decimal_text_injective(counter + 1, counter + 2);
    }
}


/// Whether a modifier name is one of the five that the settings offer.
pub open spec fn offered_modifier(m: Seq<char>) -> bool {
    m == text_ctrl() || m == text_shift() || m == text_escape() || m == text_enter() || m == text_none()
}

proof fn lemma_distinct_bindings_distinct_keys(m1: Seq<char>, k1: Seq<char>, m2: Seq<char>, k2: Seq<char>)
    requires
        offered_modifier(m1),
        offered_modifier(m2),
        (m1, k1) != (m2, k2),
        m1 != text_none() || k1.len() > 0,
        m2 != text_none() || k2.len() > 0,
    ensures
        hotkey_keys(m1, k1).to_set() != hotkey_keys(m2, k2).to_set(),
{
    let h1 = hotkey_keys(m1, k1);
    let h2 = hotkey_keys(m2, k2);
    assert(text_ctrl() != text_shift() && text_ctrl() != text_escape() && text_ctrl() != text_enter());
    assert(text_shift() != text_escape() && text_shift() != text_enter() && text_escape() != text_enter());
    assert(text_none() != text_ctrl() && text_none() != text_shift() && text_none() != text_escape()
        && text_none() != text_enter());
    if h1.to_set() == h2.to_set() {
        if m1 != m2 {
            if modifier_of(m1) is Some {
                let x = modifier_of(m1)->0;
                assert(h1.contains(x)) by {
                    assert(h1[h1.len() - 1] == x);
                }
                assert(h2.to_set().contains(x));
                assert(h2.contains(x));
                assert(modifier_of(m2) == Some(x));
            } else {
                let x = modifier_of(m2)->0;
                assert(h2.contains(x)) by {
                    assert(h2[h2.len() - 1] == x);
                }
                assert(h1.to_set().contains(x));
                assert(h1.contains(x));
            }
        } else {
            if k1.len() > 0 {
                let x = KeyView::Character(k1);
                assert(h1[0] == x);
                assert(h1.contains(x));
                assert(h2.to_set().contains(x));
                assert(h2.contains(x));
            } else {
                assert(k2.len() > 0) by {
                    if k2.len() == 0 {
                        assert(k1 =~= k2);
                    }
                }
                let x = KeyView::Character(k2);
                assert(h2[0] == x);
                assert(h2.contains(x));
                assert(h1.to_set().contains(x));
                assert(h1.contains(x));
            }
        }
    }
}

/// Settings that can be confirmed, with every modifier one of the five
/// offered names, give the seven checked bindings hotkeys that each have a
/// key and that differ from one another as sets of keys, except the start
/// and quit hotkeys, whose comparison looks at the quit modifier in place of
/// the quit key.
pub proof fn law_confirmed_hotkeys_differ(st: ShortcutSettings)
    requires
        settings_valid(&st),
        forall|i: int| 0 <= i < checked_count() ==> offered_modifier(#[trigger] st.binding(i).0),
    ensures
        forall|i: int|
            0 <= i < checked_count() ==> #[trigger] hotkey_keys(st.binding(i).0, st.binding(i).1).len() > 0,
        forall|i: int, j: int|
            0 <= i < j < checked_count() && !(i == 1 && j == 2) ==> #[trigger] hotkey_keys(
                st.binding(i).0,
                st.binding(i).1,
            ).to_set() != #[trigger] hotkey_keys(st.binding(j).0, st.binding(j).1).to_set(),
{
    assert forall|i: int| 0 <= i < checked_count() implies #[trigger] hotkey_keys(
        st.binding(i).0,
        st.binding(i).1,
    ).len() > 0 by {
        assert(st.filled(i));
        assert(offered_modifier(st.binding(i).0));
        assert(text_none() != text_ctrl() && text_none() != text_shift() && text_none() != text_escape()
            && text_none() != text_enter());
    }
    assert forall|i: int, j: int|
        0 <= i < j < checked_count() && !(i == 1 && j == 2) implies #[trigger] hotkey_keys(
        st.binding(i).0,
        st.binding(i).1,
    ).to_set() != #[trigger] hotkey_keys(st.binding(j).0, st.binding(j).1).to_set() by {
        assert(!st.clash(i, j));
        assert(st.filled(i) && st.filled(j));
        assert(offered_modifier(st.binding(i).0) && offered_modifier(st.binding(j).0));
        lemma_distinct_bindings_distinct_keys(
            st.binding(i).0,
            st.binding(i).1,
            st.binding(j).0,
            st.binding(j).1,
        );
    }
}


/// Looking at hotkeys never asks for an image to be copied or saved when
/// there is none.
proof fn lemma_image_effects_need_image<C>(
    i: int,
    s: CaptureView<C>,
    e: KeyUpEffects,
    k: KeyView,
    has_image: bool,
)
    requires
        e.copy_to_clipboard ==> has_image,
        e.save_image ==> has_image,
    ensures
        hotkeys_from(i, s, e, k, has_image).1.copy_to_clipboard ==> has_image,
        hotkeys_from(i, s, e, k, has_image).1.save_image ==> has_image,
    decreases 8 - i,
{
    if 0 <= i < 8 {
        let (s2, e2) = hotkey_step(i, s, e, k, has_image);
        lemma_image_effects_need_image(i + 1, s2, e2, k, has_image);
    }
}

/// No release asks for the captured image to be copied to the clipboard or
/// saved unless an image has been captured.
pub proof fn law_image_actions_need_image<C>(s: CaptureView<C>, k: KeyView, has_image: bool)
    ensures
        after_key_up(s, k, has_image).1.copy_to_clipboard ==> has_image,
        after_key_up(s, k, has_image).1.save_image ==> has_image,
{
    if k != KeyView::CapsLock {
        let s1 = after_release(s, k);
        if completes(s1) {
            lemma_image_effects_need_image(0, CaptureView { count: 0, ..s1 }, no_effects(), k, has_image);
        }
    }
}

/// A press of a key other than Caps Lock that is not already held records
/// its normalized form, counts one more press, and clears the fired flag, so
/// that the next completed combination is compared with every hotkey.
pub proof fn law_new_press_rearms<C>(s: CaptureView<C>, k: KeyView)
    requires
        k != KeyView::CapsLock,
        !s.pressed.contains(k),
    ensures
        !after_key_down(s, k).is_found,
        after_key_down(s, k).pressed.contains(normalized(k)),
        after_key_down(s, k).count == s.count + 1,
        after_key_down(s, k).released == s.released,
{
}

/// Moving a corner puts that corner, in window coordinates, at the mouse,
/// and the drawn rectangle's sides follow the window corners: the dragged
/// corner's coordinates are those of the mouse on both the rectangle and
/// the corner points.
pub proof fn law_edited_corner_follows_mouse<C>(
    s: Selection<C>,
    handle: DragHandle,
    pos: Point<C>,
    m: Point<C>,
)
    ensures
        handle == DragHandle::TopLeft ==> {
            let r = edited(s, handle, pos, m);
            &&& r.start_position_to_display == Some(m)
            &&& r.start_position == Some(pos)
            &&& r.rect.x0 == m.x && r.rect.y0 == m.y
            &&& r.end_position == s.end_position
            &&& r.end_position_to_display == s.end_position_to_display
        },
        handle == DragHandle::BottomRight ==> {
            let r = edited(s, handle, pos, m);
            &&& r.end_position_to_display == Some(m)
            &&& r.end_position == Some(pos)
            &&& r.rect.x1 == m.x && r.rect.y1 == m.y
            &&& r.start_position == s.start_position
            &&& r.start_position_to_display == s.start_position_to_display
        },
        handle == DragHandle::BottomLeft ==> {
            let r = edited(s, handle, pos, m);
            &&& r.start_position_to_display->0.x == m.x && r.rect.x0 == m.x
            &&& r.end_position_to_display->0.y == m.y && r.rect.y1 == m.y
            &&& r.start_position->0.x == pos.x && r.end_position->0.y == pos.y
        },
        handle == DragHandle::TopRight ==> {
            let r = edited(s, handle, pos, m);
            &&& r.end_position_to_display->0.x == m.x && r.rect.x1 == m.x
            &&& r.start_position_to_display->0.y == m.y && r.rect.y0 == m.y
            &&& r.end_position->0.x == pos.x && r.start_position->0.y == pos.y
        },
        edited(s, handle, pos, m).is_selecting,
{
}

/// A left-button press while no corner is being edited starts a new
/// selection at the press, whether or not a finished selection was shown:
/// the start corner is the press in both coordinate systems, the end corner
/// is forgotten, and the mouse is not captured.
pub proof fn law_left_press_starts_selection<C: Copy>(
    s: Selection<C>,
    p: Point<C>,
    d: Point<C>,
    h: Option<DragHandle>,
)
    requires
        !s.is_dragging,
    ensures
        s.after_mouse_down(true, p, d, h).0.start_position == Some(p),
        s.after_mouse_down(true, p, d, h).0.start_position_to_display == Some(d),
        s.after_mouse_down(true, p, d, h).0.end_position is None,
        s.after_mouse_down(true, p, d, h).0.is_selecting,
        !s.after_mouse_down(true, p, d, h).0.modify,
        !s.after_mouse_down(true, p, d, h).1,
{
}

/// While a selection is being edited, a move of the mouse that does not
/// drag a corner changes nothing; outside the edit mode it moves the end
/// corner to the mouse.
pub proof fn law_hover_move<C: Copy>(s: Selection<C>, p: Point<C>, d: Point<C>)
    ensures
        s.is_dragging ==> s.after_mouse_move(false, p, d).0 == s,
        !s.is_dragging ==> {
            let r = s.after_mouse_move(false, p, d).0;
            &&& r.end_position == Some(p)
            &&& r.end_position_to_display == Some(d)
            &&& r.start_position == s.start_position
            &&& r.start_position_to_display == s.start_position_to_display
        },
{
}

} // verus!
