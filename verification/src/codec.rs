//! Construction of the fixed 32-byte control block that carries one synthetic
//! input event to the device driver, and its little-endian byte layout.

use vstd::prelude::*;

verus! {

/// Discriminator stored in `operation_kind` for keyboard events.
pub const OPERATION_KEYBOARD: i32 = 1;

/// Discriminator stored in `operation_kind` for mouse events.
pub const OPERATION_MOUSE: i32 = 2;

/// Smallest coordinate accepted in absolute mouse mode; the driver reserves 0
/// to mean "no movement" on that axis.
pub const ABSOLUTE_MIN: i32 = 1;

/// Largest coordinate accepted in absolute mouse mode; also the magnitude
/// value that signals absolute coordinate mode to the driver.
pub const ABSOLUTE_MAX: i32 = 65536;

/// The fixed 8-field, 32-bit-aligned record sent to the driver. Field order
/// and width are a wire contract with the driver and must not change.
#[derive(Clone, Copy, Debug, PartialEq, Eq, Structural)]
pub struct ControlBlock {
    pub reserved0: i32,
    pub operation_kind: i32,
    pub magnitude_or_scan_code: i32,
    pub action_mask: u32,
    pub reserved1: i32,
    pub x: i32,
    pub y: i32,
    pub reserved2: i32,
}

/// Mouse button and scroll actions; each maps to a fixed mask value.
#[derive(Clone, Copy, Debug, PartialEq, Eq, Structural)]
pub enum MouseClick {
    LeftDown,
    LeftUp,
    RightDown,
    RightUp,
    ScrollClickDown,
    ScrollClickUp,
    BackDown,
    BackUp,
    ForwardDown,
    ForwardUp,
    ScrollDown,
    ScrollUp,
}

/// Direction of a keyboard event.
#[derive(Clone, Copy, Debug, PartialEq, Eq, Structural)]
pub enum KeyboardInputType {
    KeyboardDown,
    KeyboardUp,
}

/// The wire value of each mouse action. The button edges are distinct bit
/// flags; the two scroll values are full 32-bit sentinel patterns.
pub open spec fn click_mask_value(c: MouseClick) -> u32 {
    match c {
        MouseClick::LeftDown => 1,
        MouseClick::LeftUp => 2,
        MouseClick::RightDown => 4,
        MouseClick::RightUp => 8,
        MouseClick::ScrollClickDown => 16,
        MouseClick::ScrollClickUp => 32,
        MouseClick::BackDown => 64,
        MouseClick::BackUp => 128,
        MouseClick::ForwardDown => 256,
        MouseClick::ForwardUp => 512,
        MouseClick::ScrollDown => 4287104000,
        MouseClick::ScrollUp => 7865344,
    }
}

/// The wire value of a keyboard event direction: 0 for down, 1 for up.
pub open spec fn key_action_value(k: KeyboardInputType) -> u32 {
    match k {
        KeyboardInputType::KeyboardDown => 0,
        KeyboardInputType::KeyboardUp => 1,
    }
}

impl MouseClick {
    /// Executable form of `click_mask_value`.
    pub fn mask_value(&self) -> (r: u32)
        ensures
            r == click_mask_value(*self),
    {
        match *self {
            MouseClick::LeftDown => 1,
            MouseClick::LeftUp => 2,
            MouseClick::RightDown => 4,
            MouseClick::RightUp => 8,
            MouseClick::ScrollClickDown => 16,
            MouseClick::ScrollClickUp => 32,
            MouseClick::BackDown => 64,
            MouseClick::BackUp => 128,
            MouseClick::ForwardDown => 256,
            MouseClick::ForwardUp => 512,
            MouseClick::ScrollDown => 4287104000,
            MouseClick::ScrollUp => 7865344,
        }
    }
}

impl KeyboardInputType {
    /// Executable form of `key_action_value`.
    pub fn action_value(&self) -> (r: u32)
        ensures
            r == key_action_value(*self),
    {
        match *self {
            KeyboardInputType::KeyboardDown => 0,
            KeyboardInputType::KeyboardUp => 1,
        }
    }
}

/// A coordinate clamped to the inclusive absolute-mode range [1, 65536].
pub open spec fn clamped(v: int) -> int {
    if v < ABSOLUTE_MIN {
        ABSOLUTE_MIN as int
    } else if v > ABSOLUTE_MAX {
        ABSOLUTE_MAX as int
    } else {
        v
    }
}

/// Builds the control block for a mouse movement.
///
/// With `from_start_point` set, `x` and `y` are signed deltas from the current
/// position and pass through unclamped, and the magnitude field is 0 (relative
/// mode). Otherwise both coordinates are clamped into [1, 65536] and the
/// magnitude field is 65536 (absolute mode).
pub fn mouse_move(x: i32, y: i32, from_start_point: bool) -> (b: ControlBlock)
    ensures
        b.operation_kind == OPERATION_MOUSE,
        b.action_mask == 0,
        b.reserved0 == 0 && b.reserved1 == 0 && b.reserved2 == 0,
        from_start_point ==> b.x == x && b.y == y && b.magnitude_or_scan_code == 0,
        !from_start_point ==> b.x == clamped(x as int) && b.y == clamped(y as int),
        !from_start_point ==> b.magnitude_or_scan_code == ABSOLUTE_MAX,
        !from_start_point ==> ABSOLUTE_MIN <= b.x <= ABSOLUTE_MAX && ABSOLUTE_MIN <= b.y
            <= ABSOLUTE_MAX,
{
    let mut max_val: i32 = 0;
    let (cx, cy): (i32, i32) = if !from_start_point {
        max_val = ABSOLUTE_MAX;
        (clamp_coordinate(x), clamp_coordinate(y))
    } else {
        (x, y)
    };
    ControlBlock {
        reserved0: 0,
        operation_kind: OPERATION_MOUSE,
        magnitude_or_scan_code: max_val,
        action_mask: 0,
        reserved1: 0,
        x: cx,
        y: cy,
        reserved2: 0,
    }
}

/// Clamps one coordinate into the absolute-mode range.
fn clamp_coordinate(v: i32) -> (r: i32)
    ensures
        r == clamped(v as int),
{
    if v < ABSOLUTE_MIN {
        ABSOLUTE_MIN
    } else if v > ABSOLUTE_MAX {
        ABSOLUTE_MAX
    } else {
        v
    }
}

/// Builds the control block for a mouse click or scroll action: only the
/// action mask is set; coordinates and magnitude are zero.
pub fn mouse_click(click_mask: MouseClick) -> (b: ControlBlock)
    ensures
        b.operation_kind == OPERATION_MOUSE,
        b.action_mask == click_mask_value(click_mask),
        b.magnitude_or_scan_code == 0,
        b.x == 0 && b.y == 0,
        b.reserved0 == 0 && b.reserved1 == 0 && b.reserved2 == 0,
{
    ControlBlock {
        reserved0: 0,
        operation_kind: OPERATION_MOUSE,
        magnitude_or_scan_code: 0,
        action_mask: click_mask.mask_value(),
        reserved1: 0,
        x: 0,
        y: 0,
        reserved2: 0,
    }
}

/// Builds the control block for a keyboard event: the scan code sits in the
/// high half-word of the magnitude field, and the action mask is 0 for
/// key-down and 1 for key-up.
pub fn keyboard_input(scan_code: i32, up_down: KeyboardInputType) -> (b: ControlBlock)
    ensures
        b.operation_kind == OPERATION_KEYBOARD,
        b.magnitude_or_scan_code == scan_code << 16,
        b.action_mask == key_action_value(up_down),
        b.action_mask == 0 || b.action_mask == 1,
        (b.action_mask == 1) <==> (up_down is KeyboardUp),
        b.x == 0 && b.y == 0,
        b.reserved0 == 0 && b.reserved1 == 0 && b.reserved2 == 0,
{
    ControlBlock {
        reserved0: 0,
        operation_kind: OPERATION_KEYBOARD,
        magnitude_or_scan_code: scan_code << 16,
        action_mask: up_down.action_value(),
        reserved1: 0,
        x: 0,
        y: 0,
        reserved2: 0,
    }
}

/// The four little-endian bytes of a 32-bit word.
pub open spec fn le_word_bytes(w: u32) -> Seq<u8> {
    seq![
        (w & 0xff) as u8,
        ((w >> 8) & 0xff) as u8,
        ((w >> 16) & 0xff) as u8,
        ((w >> 24) & 0xff) as u8,
    ]
}

/// The 32-bit word read from four little-endian bytes.
pub open spec fn word_of_le_bytes(b0: u8, b1: u8, b2: u8, b3: u8) -> u32 {
    (b0 as u32) | ((b1 as u32) << 8) | ((b2 as u32) << 16) | ((b3 as u32) << 24)
}

/// The 32-byte wire image of a control block: eight little-endian 32-bit
/// words in field order.
pub open spec fn block_bytes(b: ControlBlock) -> Seq<u8> {
    le_word_bytes(b.reserved0 as u32) + le_word_bytes(b.operation_kind as u32) + le_word_bytes(
        b.magnitude_or_scan_code as u32,
    ) + le_word_bytes(b.action_mask) + le_word_bytes(b.reserved1 as u32) + le_word_bytes(
        b.x as u32,
    ) + le_word_bytes(b.y as u32) + le_word_bytes(b.reserved2 as u32)
}

/// The word at 32-bit-aligned position `k` of a byte image.
pub open spec fn word_at(s: Seq<u8>, k: int) -> u32 {
    word_of_le_bytes(s[4 * k], s[4 * k + 1], s[4 * k + 2], s[4 * k + 3])
}

/// The control block read back from a 32-byte wire image.
pub open spec fn block_of_bytes(s: Seq<u8>) -> ControlBlock {
    ControlBlock {
        reserved0: word_at(s, 0) as i32,
        operation_kind: word_at(s, 1) as i32,
        magnitude_or_scan_code: word_at(s, 2) as i32,
        action_mask: word_at(s, 3),
        reserved1: word_at(s, 4) as i32,
        x: word_at(s, 5) as i32,
        y: word_at(s, 6) as i32,
        reserved2: word_at(s, 7) as i32,
    }
}

proof fn lemma_word_le_round_trip(w: u32)
    ensures
        word_of_le_bytes(
            (w & 0xff) as u8,
            ((w >> 8) & 0xff) as u8,
            ((w >> 16) & 0xff) as u8,
            ((w >> 24) & 0xff) as u8,
        ) == w,
{
    assert(((w & 0xff) as u8 as u32) | (((w >> 8) & 0xff) as u8 as u32) << 8 | (((w >> 16)
        & 0xff) as u8 as u32) << 16 | (((w >> 24) & 0xff) as u8 as u32) << 24 == w)
        by (bit_vector);
}

proof fn lemma_signed_cast_round_trip(v: i32)
    ensures
        (v as u32) as i32 == v,
{
    assert((v as u32) as i32 == v) by (bit_vector);
}

/// The byte layout round-trips: writing a control block's 32 bytes and
/// reading them back recovers every field exactly, so the image carries no
/// padding and no reordering.
pub proof fn lemma_block_bytes_round_trip(b: ControlBlock)
    ensures
        block_bytes(b).len() == 32,
        block_of_bytes(block_bytes(b)) == b,
{
    let s = block_bytes(b);
    assert(s =~= le_word_bytes(b.reserved0 as u32) + le_word_bytes(b.operation_kind as u32)
        + le_word_bytes(b.magnitude_or_scan_code as u32) + le_word_bytes(b.action_mask)
        + le_word_bytes(b.reserved1 as u32) + le_word_bytes(b.x as u32) + le_word_bytes(
        b.y as u32,
    ) + le_word_bytes(b.reserved2 as u32));
    lemma_word_le_round_trip(b.reserved0 as u32);
    lemma_word_le_round_trip(b.operation_kind as u32);
    lemma_word_le_round_trip(b.magnitude_or_scan_code as u32);
    lemma_word_le_round_trip(b.action_mask);
    lemma_word_le_round_trip(b.reserved1 as u32);
    lemma_word_le_round_trip(b.x as u32);
    lemma_word_le_round_trip(b.y as u32);
    lemma_word_le_round_trip(b.reserved2 as u32);
    lemma_signed_cast_round_trip(b.reserved0);
    lemma_signed_cast_round_trip(b.operation_kind);
    lemma_signed_cast_round_trip(b.magnitude_or_scan_code);
    lemma_signed_cast_round_trip(b.reserved1);
    lemma_signed_cast_round_trip(b.x);
    lemma_signed_cast_round_trip(b.y);
    lemma_signed_cast_round_trip(b.reserved2);
}

/// Appends the four little-endian bytes of `w` to `v`.
fn push_word_le(v: &mut Vec<u8>, w: u32)
    requires
        old(v)@.len() + 4 <= usize::MAX,
    ensures
        final(v)@ == old(v)@ + le_word_bytes(w),
{
    proof {
        assert((w & 0xff) < 256 && ((w >> 8) & 0xff) < 256 && ((w >> 16) & 0xff) < 256 && ((w
            >> 24) & 0xff) < 256) by (bit_vector);
    }
    v.push((w & 0xff) as u8);
    v.push(((w >> 8) & 0xff) as u8);
    v.push(((w >> 16) & 0xff) as u8);
    v.push(((w >> 24) & 0xff) as u8);
    proof {
        assert(v@ =~= old(v)@ + le_word_bytes(w));
    }
}

/// Serialises a control block into its 32-byte wire image.
pub fn control_block_to_bytes(b: &ControlBlock) -> (v: Vec<u8>)
    ensures
        v@ == block_bytes(*b),
        v@.len() == 32,
{
    let mut v: Vec<u8> = Vec::new();
    push_word_le(&mut v, #[verifier::truncate] (b.reserved0 as u32));
    push_word_le(&mut v, #[verifier::truncate] (b.operation_kind as u32));
    push_word_le(&mut v, #[verifier::truncate] (b.magnitude_or_scan_code as u32));
    push_word_le(&mut v, b.action_mask);
    push_word_le(&mut v, #[verifier::truncate] (b.reserved1 as u32));
    push_word_le(&mut v, #[verifier::truncate] (b.x as u32));
    push_word_le(&mut v, #[verifier::truncate] (b.y as u32));
    push_word_le(&mut v, #[verifier::truncate] (b.reserved2 as u32));
    proof {
        assert(v@ =~= block_bytes(*b));
    }
    v
}

/// Reads the little-endian word at 32-bit-aligned position `k`.
fn read_word_le(v: &Vec<u8>, k: usize) -> (w: u32)
    requires
        k < 8,
        4 * k + 4 <= v@.len(),
    ensures
        w == word_at(v@, k as int),
{
    let b0 = v[4 * k];
    let b1 = v[4 * k + 1];
    let b2 = v[4 * k + 2];
    let b3 = v[4 * k + 3];
    (b0 as u32) | ((b1 as u32) << 8) | ((b2 as u32) << 16) | ((b3 as u32) << 24)
}

/// Reconstructs a control block from its 32-byte wire image.
pub fn control_block_from_bytes(v: &Vec<u8>) -> (b: ControlBlock)
    requires
        v@.len() == 32,
    ensures
        b == block_of_bytes(v@),
{
    ControlBlock {
        reserved0: #[verifier::truncate] (read_word_le(v, 0) as i32),
        operation_kind: #[verifier::truncate] (read_word_le(v, 1) as i32),
        magnitude_or_scan_code: #[verifier::truncate] (read_word_le(v, 2) as i32),
        action_mask: read_word_le(v, 3),
        reserved1: #[verifier::truncate] (read_word_le(v, 4) as i32),
        x: #[verifier::truncate] (read_word_le(v, 5) as i32),
        y: #[verifier::truncate] (read_word_le(v, 6) as i32),
        reserved2: #[verifier::truncate] (read_word_le(v, 7) as i32),
    }
}

} // verus!
