use rand::RngExt;
use vstd::prelude::*;
use vstd::string::StringSliceAdditionalSpecFns;
use crate::text::{decimal, decimal_string, trim, trimmed};
use crate::windows::models::DofusWindow;

verus! {

/// Division that rounds toward zero, as integer division does in Rust.
pub open spec fn div_toward_zero(a: int, b: int) -> int {
    if a >= 0 { a / b } else { -((-a) / b) }
}

/// The scale of one screen axis: the number of pixels minus one, at least 1.
pub open spec fn axis_span(size: i32) -> int {
    if size - 1 >= 1 { size - 1 } else { 1 }
}

/// Where pixel `v` of an axis that starts at `origin` and holds `size` pixels
/// falls on the 0..=65535 scale of absolute mouse coordinates, cut to 32 bits.
pub open spec fn absolute_coordinate(v: i32, origin: i32, size: i32) -> i32 {
    div_toward_zero((v - origin) * 65535, axis_span(size)) as i32
}

/// The first pixel of an axis is absolute coordinate 0.
pub proof fn lemma_origin_maps_to_zero(origin: i32, size: i32)
    ensures
        absolute_coordinate(origin, origin, size) == 0,
{
    assert(div_toward_zero(0, axis_span(size)) == 0);
}

/// The last pixel of an axis of at least two pixels is absolute coordinate 65535.
pub proof fn lemma_last_pixel_maps_to_max(origin: i32, size: i32)
    requires
        size >= 2,
        origin + size - 1 <= i32::MAX,
    ensures
        absolute_coordinate((origin + size - 1) as i32, origin, size) == 65535,
{
    let span = axis_span(size);
    assert(span == size - 1);
    vstd::arithmetic::div_mod::lemma_div_multiples_vanish(65535, span);
}

/// Every pixel of the desktop lands on 0..=65535, and pixels further along
/// the axis never land before earlier ones.
pub proof fn lemma_desktop_is_covered_in_order(v1: i32, v2: i32, origin: i32, size: i32)
    requires
        size >= 1,
        origin <= v1 <= v2,
        v2 <= origin + size - 1,
    ensures
        0 <= absolute_coordinate(v1, origin, size) <= absolute_coordinate(v2, origin, size) <= 65535,
{
    let span = axis_span(size);
    let a1 = (v1 - origin) * 65535;
    let a2 = (v2 - origin) * 65535;
    let top = span * 65535;
    assert(0 <= a1 <= a2 <= top) by (nonlinear_arith)
        requires
            a1 == (v1 - origin) * 65535,
            a2 == (v2 - origin) * 65535,
            top == span * 65535,
            0 <= v1 - origin <= v2 - origin <= span,
    ;
    vstd::arithmetic::div_mod::lemma_div_pos_is_pos(a1, span);
    vstd::arithmetic::div_mod::lemma_div_is_ordered(a1, a2, span);
    vstd::arithmetic::div_mod::lemma_div_is_ordered(a2, top, span);
    vstd::arithmetic::div_mod::lemma_div_multiples_vanish(65535, span);
    assert(top == span * 65535);
}

fn normalize_axis(v: i32, origin: i32, size: i32) -> (c: i32)
    requires
        i32::MIN <= v - origin <= i32::MAX,
        size > i32::MIN,
    ensures
        c == absolute_coordinate(v, origin, size),
{
    let span: i64 = if size - 1 >= 1 { (size - 1) as i64 } else { 1 };
    let offset: i64 = (v - origin) as i64;
    assert(-0x8000_0000 * 65535 <= offset * 65535 <= 0x7fff_ffff * 65535) by (nonlinear_arith)
        requires
            -0x8000_0000 <= offset <= 0x7fff_ffff,
    ;
    let scaled: i64 = offset * 65535;
    let q: i64 = scaled / span;
    assert(q == div_toward_zero(scaled as int, span as int));
    q as i32
}

/// Maps a screen pixel to the 0..=65535 absolute coordinate space of the
/// virtual desktop (all monitors), whose top-left pixel is
/// (`origin_x`, `origin_y`) and whose size is `width` by `height`.
pub fn normalize_absolute(x: i32, y: i32, origin_x: i32, origin_y: i32, width: i32, height: i32) -> (r: (i32, i32))
    requires
        i32::MIN <= x - origin_x <= i32::MAX,
        i32::MIN <= y - origin_y <= i32::MAX,
        width > i32::MIN,
        height > i32::MIN,
    ensures
        r.0 == absolute_coordinate(x, origin_x, width),
        r.1 == absolute_coordinate(y, origin_y, height),
{
    (normalize_axis(x, origin_x, width), normalize_axis(y, origin_y, height))
}



/// `String::from_utf8`: decodes UTF-8 bytes, failing on invalid input.
/// Its contract claims that it succeeds exactly on valid UTF-8, as vstd's
/// `valid_utf8` defines it, and then gives the text that vstd's
/// `decode_utf8` reads from the bytes.
#[verifier::external_body]
fn string_from_utf8(bytes: &[u8]) -> (r: Option<String>)
    ensures
        r is Some <==> vstd::utf8::valid_utf8(bytes@),
        r matches Some(s) ==> s@ == vstd::utf8::decode_utf8(bytes@),
{
    String::from_utf8(bytes.to_vec()).ok()
}

/// The title of a window from the buffer the system filled and the length
/// it reported: no title when the length is 0, otherwise the UTF-8 decoding
/// of the first `len` bytes, or no title when they are not valid UTF-8.
pub fn title_from_buffer(buffer: &[u8], len: i32) -> (r: Option<String>)
    requires
        0 <= len <= buffer@.len(),
    ensures
        len == 0 ==> r is None,
        len != 0 ==> (r is Some <==> vstd::utf8::valid_utf8(buffer@.subrange(0, len as int))),
        r matches Some(s) ==> s@ == vstd::utf8::decode_utf8(buffer@.subrange(0, len as int)),
{
    if len == 0 {
        return None;
    }
    let n = len as usize;
    let mut head: Vec<u8> = Vec::new();
    let mut i: usize = 0;
    while i < n
        invariant
            n <= buffer@.len(),
            i <= n,
            head@ == buffer@.subrange(0, i as int),
        decreases n - i,
    {
        head.push(buffer[i]);
        i = i + 1;
        assert(head@ =~= buffer@.subrange(0, i as int));
    }
    string_from_utf8(head.as_slice())
}

/// Whether the three characters of `s` at `i` are the separator `" - "`.
pub open spec fn separator_at(s: Seq<char>, i: int) -> bool {
    0 <= i && i + 3 <= s.len() && s[i] == ' ' && s[i + 1] == '-' && s[i + 2] == ' '
}

/// The first position at or after `from` where the separator `" - "` starts.
pub open spec fn find_separator(s: Seq<char>, from: int) -> Option<int>
    decreases s.len() - from,
{
    if from < 0 || from + 3 > s.len() {
        None
    } else if separator_at(s, from) {
        Some(from)
    } else {
        find_separator(s, from + 1)
    }
}

/// The first two pieces of `title` split at `" - "` (as `str::split` cuts it),
/// or `None` when the title holds no separator and so has a single piece.
pub open spec fn title_pieces(title: Seq<char>) -> Option<(Seq<char>, Seq<char>)> {
    match find_separator(title, 0) {
        None => None,
        Some(i) => {
            let second_end = match find_separator(title, i + 3) {
                None => title.len() as int,
                Some(j) => j,
            };
            Some((title.subrange(0, i), title.subrange(i + 3, second_end)))
        },
    }
}

proof fn lemma_find_separator(s: Seq<char>, from: int)
    requires
        0 <= from,
    ensures
        find_separator(s, from) matches Some(i) ==> from <= i && i + 3 <= s.len(),
    decreases s.len() - from,
{
    if from + 3 <= s.len() && !separator_at(s, from) {
        lemma_find_separator(s, from + 1);
    }
}

fn separator_from(s: &str, n: usize, from: usize) -> (r: Option<usize>)
    requires
        n == s@.len(),
        from <= n,
    ensures
        r matches Some(i) ==> find_separator(s@, from as int) == Some(i as int),
        r is None ==> find_separator(s@, from as int) is None,
{
    let mut i: usize = from;
    while n >= 3 && i <= n - 3
        invariant
            n == s@.len(),
            from <= i,
            i <= n,
            find_separator(s@, from as int) == find_separator(s@, i as int),
        decreases n - i,
    {
        if s.get_char(i) == ' ' && s.get_char(i + 1) == '-' && s.get_char(i + 2) == ' ' {
            return Some(i);
        }
        i = i + 1;
    }
    None
}

/// Splits a window title at `" - "` and returns its first two pieces.
pub fn split_title(title: &str) -> (r: Option<(String, String)>)
    ensures
        r is None <==> title_pieces(title@) is None,
        r matches Some(p) ==> title_pieces(title@) == Some((p.0@, p.1@)),
{
    let n = title.unicode_len();
    match separator_from(title, n, 0) {
        None => None,
        Some(i) => {
            proof { lemma_find_separator(title@, 0); }
            let end = match separator_from(title, n, i + 3) {
                None => n,
                Some(j) => {
                    proof { lemma_find_separator(title@, (i + 3) as int); }
                    j
                },
            };
            let first = String::from_str(title.substring_char(0, i));
            let second = String::from_str(title.substring_char(i + 3, end));
            Some((first, second))
        },
    }
}

/// The game window described by `title`, read as `"<name> - <class> ..."`:
/// the name and class are the first two pieces of the title split at `" - "`,
/// without surrounding white space; `None` when the title has no separator.
pub fn dofus_window_from_title(title: String, hwnd: usize) -> (w: Option<DofusWindow>)
    ensures
        w is None <==> title_pieces(title@) is None,
        w matches Some(w) ==> (w@.title == title@ && w@.hwnd == hwnd
            && w@.name == trimmed(title_pieces(title@).unwrap().0)
            && w@.class == trimmed(title_pieces(title@).unwrap().1)),
{
    match split_title(title.as_str()) {
        None => None,
        Some((first, second)) => {
            let name = trim(first.as_str());
            let class = trim(second.as_str());
            Some(DofusWindow { title, hwnd, name, class })
        },
    }
}

/// The bytes of the process name prefix `"Dofus"`.
pub open spec fn dofus_prefix() -> Seq<u8> {
    seq![68u8, 111u8, 102u8, 117u8, 115u8]
}

/// Whether a process base name, as the raw bytes that the system wrote,
/// starts with `"Dofus"`. Testing the bytes gives the same answer as testing
/// their lossy UTF-8 decoding, since the prefix is ASCII and the decoding
/// keeps ASCII bytes and never produces an ASCII character from other bytes.
pub fn is_dofus_process(name: &[u8]) -> (r: bool)
    ensures
        r == (name@.len() >= 5 && name@.subrange(0, 5) == dofus_prefix()),
{
    if name.len() < 5 {
        return false;
    }
    let r = name[0] == 68u8 && name[1] == 111u8 && name[2] == 102u8 && name[3] == 117u8 && name[4] == 115u8;
    assert(r ==> name@.subrange(0, 5) =~= dofus_prefix());
    assert(name@.subrange(0, 5) == dofus_prefix() ==> name@.subrange(0, 5)[0] == 68u8 && name@.subrange(0, 5)[1] == 111u8
        && name@.subrange(0, 5)[2] == 102u8 && name@.subrange(0, 5)[3] == 117u8 && name@.subrange(0, 5)[4] == 115u8);
    r
}

/// Mouse event flag: the pointer moves.
pub const MOUSEEVENTF_MOVE: u32 = 0x0001;
/// Mouse event flag: the left button goes down.
pub const MOUSEEVENTF_LEFTDOWN: u32 = 0x0002;
/// Mouse event flag: the left button goes up.
pub const MOUSEEVENTF_LEFTUP: u32 = 0x0004;
/// Mouse event flag: coordinates cover the whole virtual desktop.
pub const MOUSEEVENTF_VIRTUALDESK: u32 = 0x4000;
/// Mouse event flag: coordinates are absolute (0..=65535).
pub const MOUSEEVENTF_ABSOLUTE: u32 = 0x8000;
/// Keyboard event flag: the key is released.
pub const KEYEVENTF_KEYUP: u32 = 0x0002;
/// Keyboard event flag: the key is given by its hardware scan code.
pub const KEYEVENTF_SCANCODE: u32 = 0x0008;

/// One synthetic mouse event: a move by, or to, (`dx`, `dy`) and the event
/// flags. The other fields of the system's input record are always zero.
#[derive(Clone, Copy, Debug, PartialEq, Eq)]
pub struct MouseInput {
    pub dx: i32,
    pub dy: i32,
    pub flags: u32,
}

/// One synthetic keyboard event given by scan code, with its event flags.
/// The virtual key code and the other fields are always zero.
#[derive(Clone, Copy, Debug, PartialEq, Eq)]
pub struct KeyInput {
    pub scancode: u16,
    pub flags: u32,
}

/// The mouse event for (`dx`, `dy`) with `flags`.
pub fn create_mouse_input(dx: i32, dy: i32, flags: u32) -> (m: MouseInput)
    ensures
        m == (MouseInput { dx, dy, flags }),
{
    MouseInput { dx, dy, flags }
}

/// The keyboard event for `scancode`, marked as given by scan code, with the
/// extra `flags`.
pub fn create_scancode_input(scancode: u16, flags: u32) -> (k: KeyInput)
    ensures
        k == (KeyInput { scancode, flags: KEYEVENTF_SCANCODE | flags }),
{
    KeyInput { scancode, flags: KEYEVENTF_SCANCODE | flags }
}

/// A move to the absolute point (`dx`, `dy`), then a left button press and release.
pub open spec fn click_sequence(dx: i32, dy: i32) -> Seq<MouseInput> {
    seq![
        MouseInput { dx, dy, flags: MOUSEEVENTF_MOVE | MOUSEEVENTF_ABSOLUTE | MOUSEEVENTF_VIRTUALDESK },
        MouseInput { dx: 0, dy: 0, flags: MOUSEEVENTF_LEFTDOWN },
        MouseInput { dx: 0, dy: 0, flags: MOUSEEVENTF_LEFTUP },
    ]
}

/// The events of a left click at the absolute point (`dx`, `dy`), sent in one
/// injection: move, press, release.
pub fn click_inputs(dx: i32, dy: i32) -> (v: Vec<MouseInput>)
    ensures
        v@ == click_sequence(dx, dy),
{
    let mut v: Vec<MouseInput> = Vec::new();
    v.push(create_mouse_input(dx, dy, MOUSEEVENTF_MOVE | MOUSEEVENTF_ABSOLUTE | MOUSEEVENTF_VIRTUALDESK));
    v.push(create_mouse_input(0, 0, MOUSEEVENTF_LEFTDOWN));
    v.push(create_mouse_input(0, 0, MOUSEEVENTF_LEFTUP));
    assert(v@ =~= click_sequence(dx, dy));
    v
}

/// The outcome of injecting a click, given how many of its three events the
/// system accepted: success only when all three were.
pub fn check_click_sent(sent: u32) -> (r: Result<(), String>)
    ensures
        r is Ok <==> sent == 3,
        r matches Err(e) ==> e@ == "Failed to send mouse click"@,
{
    if sent != 3 {
        return Err(String::from_str("Failed to send mouse click"));
    }
    Ok(())
}


/// The byte that the keyboard layout is asked about for `key`: its first
/// byte; `None` for an empty key, which is typed as nothing.
pub fn key_first_byte(key: &str) -> (b: Option<u8>)
    ensures
        b is None <==> key.spec_bytes().len() == 0,
        b matches Some(x) ==> x == key.spec_bytes()[0],
{
    let bytes = key.as_bytes();
    if bytes.len() == 0 {
        None
    } else {
        Some(bytes[0])
    }
}

/// The keys that type `text`: one single-character string per character, in order.
pub fn text_keys(text: &str) -> (keys: Vec<String>)
    ensures
        keys@.len() == text@.len(),
        forall|i: int| 0 <= i < keys@.len() ==> (#[trigger] keys@[i])@ == seq![text@[i]],
{
    let n = text.unicode_len();
    let mut keys: Vec<String> = Vec::new();
    let mut i: usize = 0;
    while i < n
        invariant
            n == text@.len(),
            i <= n,
            keys@.len() == i,
            forall|j: int| 0 <= j < i ==> (#[trigger] keys@[j])@ == seq![text@[j]],
        decreases n - i,
    {
        let k = String::from_str(text.substring_char(i, i + 1));
        assert(k@ =~= seq![text@[i as int]]);
        keys.push(k);
        i = i + 1;
    }
    keys
}

/// A virtual key as the keyboard layout reports it for a character: the key
/// code (low byte of the layout's answer) and the modifier state (high byte:
/// 1 shift, 2 control, 4 alt).
#[derive(Clone, Copy, Debug, PartialEq, Eq)]
pub struct VirtualKey {
    pub vk_code: u32,
    pub shift_state: i16,
}

/// The error for a character that the keyboard layout cannot type.
pub open spec fn no_key_message(key: Seq<char>) -> Seq<char> {
    "No key found for character: "@ + key
}

/// Reads the keyboard layout's answer `vk_scan` for the first character of
/// `key`: -1 means no key types it; otherwise the low byte is the key code
/// and the next byte the modifier state.
pub fn virtual_key_for(key: &str, vk_scan: i16) -> (r: Result<VirtualKey, String>)
    ensures
        r is Err <==> vk_scan == -1,
        r matches Err(e) ==> e@ == no_key_message(key@),
        r matches Ok(v) ==> v.vk_code == vk_scan as int % 256 && v.shift_state == (vk_scan as int / 256) % 256,
{
    if vk_scan == -1 {
        let mut e = String::from_str("No key found for character: ");
        e.append(key);
        return Err(e);
    }
    let low: i16 = vk_scan & 0xff;
    let high: i16 = (vk_scan >> 8) & 0xff;
    assert(low as int == vk_scan as int % 256 && 0 <= low < 256) by (bit_vector)
        requires
            low == vk_scan & 0xff,
    ;
    assert(high as int == (vk_scan as int / 256) % 256) by (bit_vector)
        requires
            high == (vk_scan >> 8) & 0xff,
    ;
    Ok(VirtualKey { vk_code: low as u32, shift_state: high })
}

/// Whether modifier bit `bit` (1, 2 or 4) is set in a modifier state.
pub open spec fn has_modifier(shift_state: i16, bit: int) -> bool {
    (shift_state as int / bit) % 2 == 1
}

/// A scan-code key press of `scancode`.
pub open spec fn key_down(scancode: u16) -> KeyInput {
    KeyInput { scancode, flags: KEYEVENTF_SCANCODE }
}

/// A scan-code key release of `scancode`.
pub open spec fn key_up(scancode: u16) -> KeyInput {
    KeyInput { scancode, flags: KEYEVENTF_SCANCODE | KEYEVENTF_KEYUP }
}

/// `k` alone when `b` holds, nothing otherwise.
pub open spec fn only_if(b: bool, k: KeyInput) -> Seq<KeyInput> {
    if b { seq![k] } else { seq![] }
}

/// The events that type `scancode` with the modifiers of `shift_state`
/// held: the needed modifiers go down in the order shift, control, alt, the
/// key goes down and up, and the modifiers come up in the reverse order.
pub open spec fn key_press_sequence(scancode: u16, shift_state: i16, shift: u16, ctrl: u16, alt: u16) -> Seq<KeyInput> {
    only_if(has_modifier(shift_state, 1), key_down(shift))
        + only_if(has_modifier(shift_state, 2), key_down(ctrl))
        + only_if(has_modifier(shift_state, 4), key_down(alt))
        + seq![key_down(scancode), key_up(scancode)]
        + only_if(has_modifier(shift_state, 4), key_up(alt))
        + only_if(has_modifier(shift_state, 2), key_up(ctrl))
        + only_if(has_modifier(shift_state, 1), key_up(shift))
}

/// The error for a key code that has no scan code.
pub open spec fn no_scancode_message(vk_code: u32) -> Seq<char> {
    "Could not map virtual key "@ + decimal(vk_code as nat) + " to scancode"@
}

/// The events that type the virtual key `vk`, given the scan codes that the
/// layout maps it and the shift, control and alt keys to (each cut to 16
/// bits); an error when the key has no scan code (the cut value is 0).
pub fn key_press_inputs(vk: VirtualKey, scancode: u32, shift: u32, ctrl: u32, alt: u32) -> (r: Result<Vec<KeyInput>, String>)
    ensures
        r is Err <==> scancode as u16 == 0,
        r matches Err(e) ==> e@ == no_scancode_message(vk.vk_code),
        r matches Ok(v) ==> v@ == key_press_sequence(scancode as u16, vk.shift_state, shift as u16, ctrl as u16, alt as u16),
{
    let sc = scancode as u16;
    if sc == 0 {
        let mut e = String::from_str("Could not map virtual key ");
        let digits = decimal_string(vk.vk_code as u64);
        e.append(digits.as_str());
        e.append(" to scancode");
        return Err(e);
    }
    let state = vk.shift_state;
    let needs_shift = (state & 1) != 0;
    let needs_ctrl = (state & 2) != 0;
    let needs_alt = (state & 4) != 0;
    assert(needs_shift == has_modifier(state, 1) && needs_ctrl == has_modifier(state, 2)
        && needs_alt == has_modifier(state, 4)) by (bit_vector)
        requires
            needs_shift == ((state & 1) != 0),
            needs_ctrl == ((state & 2) != 0),
            needs_alt == ((state & 4) != 0),
    ;
    let shift_sc = shift as u16;
    let ctrl_sc = ctrl as u16;
    let alt_sc = alt as u16;
    let mut v: Vec<KeyInput> = Vec::new();
    if needs_shift {
        v.push(create_scancode_input(shift_sc, 0));
    }
    if needs_ctrl {
        v.push(create_scancode_input(ctrl_sc, 0));
    }
    if needs_alt {
        v.push(create_scancode_input(alt_sc, 0));
    }
    v.push(create_scancode_input(sc, 0));
    v.push(create_scancode_input(sc, KEYEVENTF_KEYUP));
    if needs_alt {
        v.push(create_scancode_input(alt_sc, KEYEVENTF_KEYUP));
    }
    if needs_ctrl {
        v.push(create_scancode_input(ctrl_sc, KEYEVENTF_KEYUP));
    }
    if needs_shift {
        v.push(create_scancode_input(shift_sc, KEYEVENTF_KEYUP));
    }
    assert(KEYEVENTF_SCANCODE | 0 == KEYEVENTF_SCANCODE) by (bit_vector);
    assert(v@ =~= key_press_sequence(sc, state, shift_sc, ctrl_sc, alt_sc));
    Ok(v)
}


/// The scan code of modifier bit `b` (1 shift, 2 control, 4 alt).
pub open spec fn modifier_code(b: int, shift: u16, ctrl: u16, alt: u16) -> u16 {
    if b == 1 { shift } else if b == 2 { ctrl } else { alt }
}

/// `seq` holds the modifiers `mods` around the key `scancode`: `mods` are
/// exactly the modifier bits set in `shift_state`, in the order shift,
/// control, alt, each pressed once before the key goes down and up, and all
/// released after it, in the reverse order.
pub open spec fn is_modifier_hold(seq: Seq<KeyInput>, mods: Seq<int>, scancode: u16, shift_state: i16, shift: u16, ctrl: u16, alt: u16) -> bool {
    let n = mods.len() as int;
    &&& forall|k: int| 0 <= k < n ==> (#[trigger] mods[k] == 1 || mods[k] == 2 || mods[k] == 4)
    &&& forall|k: int, l: int| 0 <= k < l < n ==> mods[k] < mods[l]
    &&& forall|b: int| (b == 1 || b == 2 || b == 4) ==> (((shift_state as int / b) % 2 == 1) <==> mods.contains(b))
    &&& seq.len() == 2 * n + 2
    &&& forall|k: int| 0 <= k < n ==> #[trigger] seq[k] == (KeyInput { scancode: modifier_code(mods[k], shift, ctrl, alt), flags: KEYEVENTF_SCANCODE })
    &&& seq[n] == (KeyInput { scancode, flags: KEYEVENTF_SCANCODE })
    &&& seq[n + 1] == (KeyInput { scancode, flags: KEYEVENTF_SCANCODE | KEYEVENTF_KEYUP })
    &&& forall|k: int| 0 <= k < n ==> #[trigger] seq[n + 2 + k] == (KeyInput {
        scancode: modifier_code(mods[n - 1 - k], shift, ctrl, alt),
        flags: KEYEVENTF_SCANCODE | KEYEVENTF_KEYUP,
    })
}

/// Typing a key holds exactly the modifiers that the layout asks for: each
/// modifier whose bit is set (1 shift, 2 control, 4 alt) is pressed once,
/// in the order shift, control, alt, before the key; the key is pressed and
/// released; and every modifier pressed is released after the key, in the
/// reverse order, so that no key stays down.
pub proof fn lemma_key_press_holds_exactly_the_needed_modifiers(scancode: u16, shift_state: i16, shift: u16, ctrl: u16, alt: u16)
    ensures
        exists|mods: Seq<int>| is_modifier_hold(
            key_press_sequence(scancode, shift_state, shift, ctrl, alt),
            mods,
            scancode,
            shift_state,
            shift,
            ctrl,
            alt,
        ),
{
    let seq = key_press_sequence(scancode, shift_state, shift, ctrl, alt);
    let m1 = (shift_state as int / 1) % 2 == 1;
    let m2 = (shift_state as int / 2) % 2 == 1;
    let m4 = (shift_state as int / 4) % 2 == 1;
    assert(has_modifier(shift_state, 1) == m1 && has_modifier(shift_state, 2) == m2 && has_modifier(shift_state, 4) == m4);
    if !m1 && !m2 && !m4 {
        let mods: Seq<int> = Seq::<int>::empty();
        assert(seq =~= seq![key_down(scancode), key_up(scancode)]);
        assert(is_modifier_hold(seq, mods, scancode, shift_state, shift, ctrl, alt));
    }
    if !m1 && !m2 && m4 {
        let mods: Seq<int> = seq![4int];
        assert(mods[0] == 4);
        assert(seq =~= seq![key_down(alt), key_down(scancode), key_up(scancode), key_up(alt)]);
        assert(is_modifier_hold(seq, mods, scancode, shift_state, shift, ctrl, alt));
    }
    if !m1 && m2 && !m4 {
        let mods: Seq<int> = seq![2int];
        assert(mods[0] == 2);
        assert(seq =~= seq![key_down(ctrl), key_down(scancode), key_up(scancode), key_up(ctrl)]);
        assert(is_modifier_hold(seq, mods, scancode, shift_state, shift, ctrl, alt));
    }
    if !m1 && m2 && m4 {
        let mods: Seq<int> = seq![2int, 4int];
        assert(mods[0] == 2);
        assert(mods[1] == 4);
        assert(seq =~= seq![key_down(ctrl), key_down(alt), key_down(scancode), key_up(scancode), key_up(alt), key_up(ctrl)]);
        assert(is_modifier_hold(seq, mods, scancode, shift_state, shift, ctrl, alt));
    }
    if m1 && !m2 && !m4 {
        let mods: Seq<int> = seq![1int];
        assert(mods[0] == 1);
        assert(seq =~= seq![key_down(shift), key_down(scancode), key_up(scancode), key_up(shift)]);
        assert(is_modifier_hold(seq, mods, scancode, shift_state, shift, ctrl, alt));
    }
    if m1 && !m2 && m4 {
        let mods: Seq<int> = seq![1int, 4int];
        assert(mods[0] == 1);
        assert(mods[1] == 4);
        assert(seq =~= seq![key_down(shift), key_down(alt), key_down(scancode), key_up(scancode), key_up(alt), key_up(shift)]);
        assert(is_modifier_hold(seq, mods, scancode, shift_state, shift, ctrl, alt));
    }
    if m1 && m2 && !m4 {
        let mods: Seq<int> = seq![1int, 2int];
        assert(mods[0] == 1);
        assert(mods[1] == 2);
        assert(seq =~= seq![key_down(shift), key_down(ctrl), key_down(scancode), key_up(scancode), key_up(ctrl), key_up(shift)]);
        assert(is_modifier_hold(seq, mods, scancode, shift_state, shift, ctrl, alt));
    }
    if m1 && m2 && m4 {
        let mods: Seq<int> = seq![1int, 2int, 4int];
        assert(mods[0] == 1);
        assert(mods[1] == 2);
        assert(mods[2] == 4);
        assert(seq =~= seq![key_down(shift), key_down(ctrl), key_down(alt), key_down(scancode), key_up(scancode), key_up(alt), key_up(ctrl), key_up(shift)]);
        assert(is_modifier_hold(seq, mods, scancode, shift_state, shift, ctrl, alt));
    }
}

/// The outcome of injecting the events of a key press: the system reports
/// how many it accepted, and none means failure.
pub fn check_key_sent(sent: u32) -> (r: Result<(), String>)
    ensures
        r is Ok <==> sent != 0,
        r matches Err(e) ==> e@ == "Failed to send key"@,
{
    if sent == 0 {
        return Err(String::from_str("Failed to send key"));
    }
    Ok(())
}

/// The events of a press of the Enter key, given the scan code that the
/// layout maps the key to (cut to 16 bits); an error when it has none.
pub fn enter_key_inputs(scancode: u32) -> (r: Result<Vec<KeyInput>, String>)
    ensures
        r is Err <==> scancode as u16 == 0,
        r matches Err(e) ==> e@ == "Could not map Enter key to scancode"@,
        r matches Ok(v) ==> v@ == seq![key_down(scancode as u16), key_up(scancode as u16)],
{
    let sc = scancode as u16;
    if sc == 0 {
        return Err(String::from_str("Could not map Enter key to scancode"));
    }
    let mut v: Vec<KeyInput> = Vec::new();
    v.push(create_scancode_input(sc, 0));
    v.push(create_scancode_input(sc, KEYEVENTF_KEYUP));
    assert(KEYEVENTF_SCANCODE | 0 == KEYEVENTF_SCANCODE) by (bit_vector);
    assert(v@ =~= seq![key_down(sc), key_up(sc)]);
    Ok(v)
}

/// The outcome of injecting an Enter key press: none accepted means failure.
pub fn check_enter_sent(sent: u32) -> (r: Result<(), String>)
    ensures
        r is Ok <==> sent != 0,
        r matches Err(e) ==> e@ == "Failed to send Enter key"@,
{
    if sent == 0 {
        return Err(String::from_str("Failed to send Enter key"));
    }
    Ok(())
}

/// One click of a click-all sequence: the position of the target window in
/// the window list, and whether it must first be brought to the foreground.
#[derive(Clone, Copy, Debug, PartialEq, Eq)]
pub struct ClickStep {
    pub window: usize,
    pub activate: bool,
}

/// The handles of a list of windows.
pub open spec fn handles(ws: Seq<DofusWindow>) -> Seq<usize> {
    ws.map_values(|w: DofusWindow| w.hwnd)
}

/// The steps, in list order, for the windows whose handle is the foreground
/// window (`foreground_pass`) or, otherwise, for the others, among the first
/// `hwnds.len()` windows.
pub open spec fn click_pass(hwnds: Seq<usize>, foreground: usize, foreground_pass: bool) -> Seq<ClickStep>
    decreases hwnds.len(),
{
    if hwnds.len() == 0 {
        seq![]
    } else {
        let i = hwnds.len() - 1;
        let rest = click_pass(hwnds.drop_last(), foreground, foreground_pass);
        if (hwnds[i] == foreground) == foreground_pass {
            rest.push(ClickStep { window: i as usize, activate: !foreground_pass })
        } else {
            rest
        }
    }
}

/// The order of a click-all sequence: first the windows that already are in
/// the foreground, clicked as they are, then every other window, each brought
/// forward before its click; list order within each pass.
pub open spec fn click_plan(hwnds: Seq<usize>, foreground: usize) -> Seq<ClickStep> {
    click_pass(hwnds, foreground, true) + click_pass(hwnds, foreground, false)
}

fn plan_pass(windows: &Vec<DofusWindow>, foreground: usize, foreground_pass: bool, steps: &mut Vec<ClickStep>)
    ensures
        final(steps)@ == old(steps)@ + click_pass(handles(windows@), foreground, foreground_pass),
{
    let ghost start = steps@;
    let ghost hs = handles(windows@);
    let mut i: usize = 0;
    while i < windows.len()
        invariant
            i <= windows.len(),
            hs == handles(windows@),
            hs.len() == windows@.len(),
            steps@ == start + click_pass(hs.take(i as int), foreground, foreground_pass),
        decreases windows.len() - i,
    {
        assert(hs.take(i + 1).drop_last() =~= hs.take(i as int));
        if (windows[i].hwnd == foreground) == foreground_pass {
            steps.push(ClickStep { window: i, activate: !foreground_pass });
        }
        i = i + 1;
    }
    assert(hs.take(windows.len() as int) =~= hs);
}

/// The order in which a click-all sequence visits `windows`, given the
/// foreground window at its start.
pub fn plan_clicks(windows: &Vec<DofusWindow>, foreground: usize) -> (steps: Vec<ClickStep>)
    ensures
        steps@ == click_plan(handles(windows@), foreground),
{
    let mut steps: Vec<ClickStep> = Vec::new();
    plan_pass(windows, foreground, true, &mut steps);
    plan_pass(windows, foreground, false, &mut steps);
    assert(steps@ =~= click_plan(handles(windows@), foreground));
    steps
}


/// Whether some step of `plan` clicks window `w`.
pub open spec fn clicks_window(plan: Seq<ClickStep>, w: int) -> bool {
    exists|p: int| 0 <= p < plan.len() && #[trigger] plan[p].window == w
}

proof fn lemma_click_pass(hwnds: Seq<usize>, foreground: usize, foreground_pass: bool)
    requires
        hwnds.len() <= usize::MAX,
    ensures
        forall|p: int| 0 <= p < click_pass(hwnds, foreground, foreground_pass).len() ==> {
            let st = #[trigger] click_pass(hwnds, foreground, foreground_pass)[p];
            &&& st.window < hwnds.len()
            &&& st.activate == !foreground_pass
            &&& (hwnds[st.window as int] == foreground) == foreground_pass
        },
        forall|p: int, q: int| 0 <= p < q < click_pass(hwnds, foreground, foreground_pass).len()
            ==> click_pass(hwnds, foreground, foreground_pass)[p].window < click_pass(hwnds, foreground, foreground_pass)[q].window,
        forall|w: int| 0 <= w < hwnds.len() && (hwnds[w] == foreground) == foreground_pass ==> exists|p: int|
            0 <= p < click_pass(hwnds, foreground, foreground_pass).len() && #[trigger] click_pass(hwnds, foreground, foreground_pass)[p].window == w,
    decreases hwnds.len(),
{
    if hwnds.len() > 0 {
        let prev = hwnds.drop_last();
        lemma_click_pass(prev, foreground, foreground_pass);
        let rest = click_pass(prev, foreground, foreground_pass);
        let cur = click_pass(hwnds, foreground, foreground_pass);
        let i = hwnds.len() - 1;
        assert forall|w: int| 0 <= w < hwnds.len() && (hwnds[w] == foreground) == foreground_pass implies exists|p: int|
            0 <= p < cur.len() && #[trigger] cur[p].window == w by {
            if w < i {
                assert(prev[w] == hwnds[w]);
                let p = choose|p: int| 0 <= p < rest.len() && #[trigger] rest[p].window == w;
                assert(cur[p] == rest[p]);
            } else {
                assert(cur[rest.len() as int].window == w);
            }
        }
        assert forall|p: int| 0 <= p < cur.len() implies {
            let st = #[trigger] cur[p];
            &&& st.window < hwnds.len()
            &&& st.activate == !foreground_pass
            &&& (hwnds[st.window as int] == foreground) == foreground_pass
        } by {
            if p < rest.len() {
                assert(cur[p] == rest[p]);
                assert(prev[rest[p].window as int] == hwnds[rest[p].window as int]);
            }
        }
    }
}

/// The plan of a click-all sequence visits every window exactly once: the
/// foreground windows first, as they are, then the others, each to be brought
/// forward first. When the plan runs, a visited window may still be skipped
/// (see `click_next`).
pub proof fn lemma_click_plan_visits_each_window_once(hwnds: Seq<usize>, foreground: usize)
    requires
        hwnds.len() <= usize::MAX,
    ensures
        forall|p: int| 0 <= p < click_plan(hwnds, foreground).len() ==> {
            let st = #[trigger] click_plan(hwnds, foreground)[p];
            &&& st.window < hwnds.len()
            &&& st.activate == (hwnds[st.window as int] != foreground)
        },
        forall|w: int| 0 <= w < hwnds.len() ==> #[trigger] clicks_window(click_plan(hwnds, foreground), w),
        forall|p: int, q: int| 0 <= p < q < click_plan(hwnds, foreground).len()
            ==> click_plan(hwnds, foreground)[p].window != click_plan(hwnds, foreground)[q].window,
        forall|p: int, q: int| 0 <= p < q < click_plan(hwnds, foreground).len() && click_plan(hwnds, foreground)[p].activate
            ==> click_plan(hwnds, foreground)[q].activate,
{
    lemma_click_pass(hwnds, foreground, true);
    lemma_click_pass(hwnds, foreground, false);
    let a = click_pass(hwnds, foreground, true);
    let b = click_pass(hwnds, foreground, false);
    let plan = click_plan(hwnds, foreground);
    assert(plan == a + b);
    assert forall|p: int| 0 <= p < plan.len() implies {
        let st = #[trigger] plan[p];
        &&& st.window < hwnds.len()
        &&& st.activate == (hwnds[st.window as int] != foreground)
    } by {
        if p < a.len() {
            assert(plan[p] == a[p]);
        } else {
            assert(plan[p] == b[p - a.len()]);
        }
    }
    assert forall|w: int| 0 <= w < hwnds.len() implies #[trigger] clicks_window(plan, w) by {
        if hwnds[w] == foreground {
            let p = choose|p: int| 0 <= p < a.len() && #[trigger] a[p].window == w;
            assert(plan[p] == a[p]);
        } else {
            let p = choose|p: int| 0 <= p < b.len() && #[trigger] b[p].window == w;
            assert(plan[a.len() + p] == b[p]);
        }
    }
    assert forall|p: int, q: int| 0 <= p < q < plan.len() implies plan[p].window != plan[q].window by {
        if q < a.len() {
            assert(plan[p] == a[p] && plan[q] == a[q]);
        } else if p >= a.len() {
            assert(plan[p] == b[p - a.len()] && plan[q] == b[q - a.len()]);
        } else {
            assert(plan[p] == a[p] && plan[q] == b[q - a.len()]);
            assert(hwnds[a[p].window as int] == foreground);
            assert(hwnds[b[q - a.len()].window as int] != foreground);
        }
    }
    assert forall|p: int, q: int| 0 <= p < q < plan.len() && plan[p].activate implies plan[q].activate by {
        if p < a.len() {
            assert(plan[p] == a[p]);
        } else {
            assert(plan[q] == b[q - a.len()]);
        }
    }
}

/// `rand::rng().random_range(min..=max)`: a random number between `min` and
/// `max`, both included; the range must not be empty (the call panics then).
/// Its contract claims only that the number lies in the range.
#[verifier::external_body]
fn random_in_range(min: u64, max: u64) -> (r: u64)
    requires
        min <= max,
    ensures
        min <= r <= max,
{
    rand::rng().random_range(min..=max)
}

/// The pause, in milliseconds, after one click of a click-all sequence:
/// none without bounds, otherwise a random duration between the bounds.
pub fn click_delay(delays: Option<(u64, u64)>) -> (d: Option<u64>)
    requires
        delays matches Some(b) ==> b.0 <= b.1,
    ensures
        d is None <==> delays is None,
        d matches Some(ms) ==> delays.unwrap().0 <= ms <= delays.unwrap().1,
{
    match delays {
        None => None,
        Some((min, max)) => Some(random_in_range(min, max)),
    }
}

} // verus!
