use vstd::prelude::*;

verus! {

/// The color of a menu item's text, by font (9: the label, 7: its shadow),
/// whether the item is enabled and whether it is selected.
pub open spec fn menu_item_color_spec(font_type: u32, enabled: bool, selected: bool) -> u32 {
    if !enabled {
        if font_type == 9 { 0x40ffffff } else { 0xff808080 }
    } else if selected {
        if font_type == 9 { 0xff000000 } else { 0xffffff80 }
    } else {
        if font_type == 9 { 0xff404040 } else { 0xff808060 }
    }
}

/// The color of a menu item's text; only fonts 7 and 9 are used for items.
pub fn menu_item_color(font_type: u32, enabled: bool, selected: bool) -> (r: u32)
    requires
        font_type == 7 || font_type == 9,
    ensures
        r == menu_item_color_spec(font_type, enabled, selected),
{
    if !enabled {
        if font_type == 9 { 0x40ffffff } else { 0xff808080 }
    } else if selected {
        if font_type == 9 { 0xff000000 } else { 0xffffff80 }
    } else {
        if font_type == 9 { 0xff404040 } else { 0xff808060 }
    }
}

/// Whether a key is down in a keyboard state (its high bit is set).
pub open spec fn key_down(state: u8) -> bool {
    state & 0x80 != 0
}

/// The digit whose key is down, the lowest one if several are, in a
/// keyboard state indexed by virtual-key code (the digit keys are the
/// codes of '0' to '9').
pub open spec fn inputed_number_spec(raw_keys: Seq<u8>, from: nat) -> Option<u8>
    decreases 10 - from,
{
    if from >= 10 {
        None
    } else if key_down(raw_keys[48 + from as int]) {
        Some(from as u8)
    } else {
        inputed_number_spec(raw_keys, from + 1)
    }
}

/// The digit key that is down, if any (the lowest of several).
pub fn inputed_number(raw_keys: &[u8; 256]) -> (r: Option<u8>)
    ensures
        r == inputed_number_spec(raw_keys@, 0),
{
    let mut i: u8 = 0;
    while i <= 9
        invariant
            i <= 10,
            raw_keys@.len() == 256,
            inputed_number_spec(raw_keys@, i as nat) == inputed_number_spec(raw_keys@, 0),
        decreases 10 - i,
    {
        let state = raw_keys[(48 + i) as usize];
        if state & 0x80 != 0 {
            return Some(i);
        }
        i = i + 1;
    }
    None
}

/// Whether F1 (virtual-key code 0x70) is down.
pub fn pushed_f1(raw_keys: &[u8; 256]) -> (r: bool)
    ensures
        r == key_down(raw_keys@[0x70]),
{
    raw_keys[0x70] & 0x80 != 0
}

} // verus!
