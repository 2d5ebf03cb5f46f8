//! Translation of X keysyms into the window layer's key codes.

use vstd::prelude::*;
use crate::input::KeyCode;
use ::x11::keysym;

verus! {

/// Keysyms of the editing keys.
pub struct EditingKeysyms {
    pub return_key: u32,
    pub tab: u32,
    pub escape: u32,
    pub backspace: u32,
    pub delete: u32,
    pub insert: u32,
}

/// Keysyms of the cursor and paging keys.
pub struct MotionKeysyms {
    pub left: u32,
    pub right: u32,
    pub up: u32,
    pub down: u32,
    pub home: u32,
    pub end: u32,
    pub page_up: u32,
    pub page_down: u32,
}

/// Keysyms of the modifier keys.
pub struct ModifierKeysyms {
    pub shift_l: u32,
    pub shift_r: u32,
    pub control_l: u32,
    pub control_r: u32,
    pub alt_l: u32,
    pub alt_r: u32,
    pub meta_l: u32,
    pub meta_r: u32,
    pub super_l: u32,
    pub super_r: u32,
}

/// Reads `XK_Return`, `XK_Tab`, `XK_Escape`, `XK_BackSpace`, `XK_Delete` and
/// `XK_Insert` from `x11::keysym`; the contract states the values that the x11
/// crate defines for them.
#[verifier::external_body]
fn editing_keysyms() -> (k: EditingKeysyms)
    ensures
        k.return_key == 0xFF0D,
        k.tab == 0xFF09,
        k.escape == 0xFF1B,
        k.backspace == 0xFF08,
        k.delete == 0xFFFF,
        k.insert == 0xFF63,
{
    EditingKeysyms {
        return_key: keysym::XK_Return,
        tab: keysym::XK_Tab,
        escape: keysym::XK_Escape,
        backspace: keysym::XK_BackSpace,
        delete: keysym::XK_Delete,
        insert: keysym::XK_Insert,
    }
}

/// Reads `XK_Left`, `XK_Right`, `XK_Up`, `XK_Down`, `XK_Home`, `XK_End`,
/// `XK_Page_Up` and `XK_Page_Down` from `x11::keysym`; the contract states the
/// values that the x11 crate defines for them.
#[verifier::external_body]
fn motion_keysyms() -> (k: MotionKeysyms)
    ensures
        k.left == 0xFF51,
        k.right == 0xFF53,
        k.up == 0xFF52,
        k.down == 0xFF54,
        k.home == 0xFF50,
        k.end == 0xFF57,
        k.page_up == 0xFF55,
        k.page_down == 0xFF56,
{
    MotionKeysyms {
        left: keysym::XK_Left,
        right: keysym::XK_Right,
        up: keysym::XK_Up,
        down: keysym::XK_Down,
        home: keysym::XK_Home,
        end: keysym::XK_End,
        page_up: keysym::XK_Page_Up,
        page_down: keysym::XK_Page_Down,
    }
}

/// Reads `XK_F1` through `XK_F12` from `x11::keysym` in order; the contract
/// states the values that the x11 crate defines for them (consecutive, from
/// 0xFFBE).
#[verifier::external_body]
fn function_keysyms() -> (k: [u32; 12])
    ensures
        forall|i: int| 0 <= i < 12 ==> #[trigger] k@[i] == 0xFFBE + i,
{
    [
        keysym::XK_F1, keysym::XK_F2, keysym::XK_F3, keysym::XK_F4,
        keysym::XK_F5, keysym::XK_F6, keysym::XK_F7, keysym::XK_F8,
        keysym::XK_F9, keysym::XK_F10, keysym::XK_F11, keysym::XK_F12,
    ]
}

/// Reads the keysyms of the shift, control, alt, meta and super keys from
/// `x11::keysym`; the contract states the values that the x11 crate defines
/// for them.
#[verifier::external_body]
fn modifier_keysyms() -> (k: ModifierKeysyms)
    ensures
        k.shift_l == 0xFFE1,
        k.shift_r == 0xFFE2,
        k.control_l == 0xFFE3,
        k.control_r == 0xFFE4,
        k.meta_l == 0xFFE7,
        k.meta_r == 0xFFE8,
        k.alt_l == 0xFFE9,
        k.alt_r == 0xFFEA,
        k.super_l == 0xFFEB,
        k.super_r == 0xFFEC,
{
    ModifierKeysyms {
        shift_l: keysym::XK_Shift_L,
        shift_r: keysym::XK_Shift_R,
        control_l: keysym::XK_Control_L,
        control_r: keysym::XK_Control_R,
        alt_l: keysym::XK_Alt_L,
        alt_r: keysym::XK_Alt_R,
        meta_l: keysym::XK_Meta_L,
        meta_r: keysym::XK_Meta_R,
        super_l: keysym::XK_Super_L,
        super_r: keysym::XK_Super_R,
    }
}

} // verus!

verus! {

/// Whether `v` is a Unicode scalar value, the values that a `char` can hold.
pub open spec fn is_scalar_value(v: u32) -> bool {
    v <= 0x10FFFF && !(0xD800 <= v && v <= 0xDFFF)
}

/// Whether the code point `c` has the Unicode general category Cc (control).
pub open spec fn is_control_code(c: u32) -> bool {
    c <= 0x1F || (0x7F <= c && c <= 0x9F)
}

/// Whether a keysym lies in the Latin-1 printable ranges, where the keysym is
/// its own code point.
pub open spec fn is_printable_latin1_keysym(keysym: u32) -> bool {
    (0x20 <= keysym && keysym <= 0x7E) || (0xA0 <= keysym && keysym <= 0xFF)
}

/// The key code for a named keysym, if the table names it.
pub open spec fn named_keysym(keysym: u32) -> Option<KeyCode> {
    if keysym == 0xFF0D { Some(KeyCode::Char('\r')) }
    else if keysym == 0xFF09 { Some(KeyCode::Char('\t')) }
    else if keysym == 0xFF1B { Some(KeyCode::Char('\u{1b}')) }
    else if keysym == 0xFF08 { Some(KeyCode::Char('\u{8}')) }
    else if keysym == 0xFFFF { Some(KeyCode::Char('\u{7f}')) }
    else if keysym == 0xFF51 { Some(KeyCode::LeftArrow) }
    else if keysym == 0xFF53 { Some(KeyCode::RightArrow) }
    else if keysym == 0xFF52 { Some(KeyCode::UpArrow) }
    else if keysym == 0xFF54 { Some(KeyCode::DownArrow) }
    else if keysym == 0xFF50 { Some(KeyCode::Home) }
    else if keysym == 0xFF57 { Some(KeyCode::End) }
    else if keysym == 0xFF55 { Some(KeyCode::PageUp) }
    else if keysym == 0xFF56 { Some(KeyCode::PageDown) }
    else if keysym == 0xFF63 { Some(KeyCode::Insert) }
    else if 0xFFBE <= keysym && keysym <= 0xFFC9 { Some(KeyCode::Function((keysym - 0xFFBE + 1) as u8)) }
    else if keysym == 0xFFE1 { Some(KeyCode::LeftShift) }
    else if keysym == 0xFFE2 { Some(KeyCode::RightShift) }
    else if keysym == 0xFFE3 { Some(KeyCode::LeftControl) }
    else if keysym == 0xFFE4 { Some(KeyCode::RightControl) }
    else if keysym == 0xFFE9 || keysym == 0xFFE7 { Some(KeyCode::LeftAlt) }
    else if keysym == 0xFFEA || keysym == 0xFFE8 { Some(KeyCode::RightAlt) }
    else if keysym == 0xFFEB { Some(KeyCode::LeftWindows) }
    else if keysym == 0xFFEC { Some(KeyCode::RightWindows) }
    else { None }
}

/// The key code for a keysym and the character that the keyboard state
/// produces for it (`utf32`, 0 when there is none): a named key first, then
/// the produced character unless it is a control character, then the keysym
/// itself where it is a printable Latin-1 code point, else the raw keysym.
pub open spec fn keysym_key_code(keysym: u32, utf32: u32) -> KeyCode {
    match named_keysym(keysym) {
        Some(k) => k,
        None => if is_scalar_value(utf32) && !is_control_code(utf32) {
            KeyCode::Char(utf32 as char)
        } else if is_printable_latin1_keysym(keysym) {
            KeyCode::Char(keysym as char)
        } else {
            KeyCode::RawCode(keysym)
        },
    }
}

/// Calls `char::from_u32`, which returns the `char` whose scalar value is `v`,
/// or `None` where `v` is not a Unicode scalar value (a surrogate or above
/// 0x10FFFF).
#[verifier::external_body]
pub(crate) fn char_from_u32(v: u32) -> (r: Option<char>)
    ensures
        r == (if is_scalar_value(v) { Some(v as char) } else { None::<char> }),
{
    char::from_u32(v)
}

/// Whether `c` has the Unicode general category Cc.
pub fn is_control_char(c: char) -> (r: bool)
    ensures
        r == is_control_code(c as u32),
{
    let v: u32 = c as u32;
    v <= 0x1F || (0x7F <= v && v <= 0x9F)
}

/// Translates a keysym, and the character the keyboard state produced for it,
/// into a key code.
pub fn key_code_from_keysym(keysym: u32, utf32: u32) -> (k: KeyCode)
    ensures
        k == keysym_key_code(keysym, utf32),
{
    let ed = editing_keysyms();
    let mo = motion_keysyms();
    let fk = function_keysyms();
    let md = modifier_keysyms();
    if keysym == ed.return_key {
        return KeyCode::Char('\r');
    } else if keysym == ed.tab {
        return KeyCode::Char('\t');
    } else if keysym == ed.escape {
        return KeyCode::Char('\u{1b}');
    } else if keysym == ed.backspace {
        return KeyCode::Char('\u{8}');
    } else if keysym == ed.delete {
        return KeyCode::Char('\u{7f}');
    } else if keysym == mo.left {
        return KeyCode::LeftArrow;
    } else if keysym == mo.right {
        return KeyCode::RightArrow;
    } else if keysym == mo.up {
        return KeyCode::UpArrow;
    } else if keysym == mo.down {
        return KeyCode::DownArrow;
    } else if keysym == mo.home {
        return KeyCode::Home;
    } else if keysym == mo.end {
        return KeyCode::End;
    } else if keysym == mo.page_up {
        return KeyCode::PageUp;
    } else if keysym == mo.page_down {
        return KeyCode::PageDown;
    } else if keysym == ed.insert {
        return KeyCode::Insert;
    }
    let mut i: usize = 0;
    while i < 12
        invariant
            0 <= i <= 12,
            forall|j: int| 0 <= j < 12 ==> #[trigger] fk@[j] == 0xFFBE + j,
            forall|j: int| 0 <= j < i ==> fk@[j] != keysym,
        decreases 12 - i,
    {
        if keysym == fk[i] {
            assert(keysym == 0xFFBE + i);
            return KeyCode::Function((i + 1) as u8);
        }
        i = i + 1;
    }
    assert(!(0xFFBE <= keysym && keysym <= 0xFFC9)) by {
        if 0xFFBE <= keysym && keysym <= 0xFFC9 {
            assert(fk@[keysym - 0xFFBE] == keysym);
        }
    }
    if keysym == md.shift_l {
        KeyCode::LeftShift
    } else if keysym == md.shift_r {
        KeyCode::RightShift
    } else if keysym == md.control_l {
        KeyCode::LeftControl
    } else if keysym == md.control_r {
        KeyCode::RightControl
    } else if keysym == md.alt_l || keysym == md.meta_l {
        KeyCode::LeftAlt
    } else if keysym == md.alt_r || keysym == md.meta_r {
        KeyCode::RightAlt
    } else if keysym == md.super_l {
        KeyCode::LeftWindows
    } else if keysym == md.super_r {
        KeyCode::RightWindows
    } else {
        match char_from_u32(utf32) {
            Some(ch) if !is_control_char(ch) => KeyCode::Char(ch),
            _ => {
                if (0x20 <= keysym && keysym <= 0x7E) || (0xA0 <= keysym && keysym <= 0xFF) {
                    match char_from_u32(keysym) {
                        Some(ch) => KeyCode::Char(ch),
                        None => KeyCode::RawCode(keysym),
                    }
                } else {
                    KeyCode::RawCode(keysym)
                }
            },
        }
    }
}

} // verus!
