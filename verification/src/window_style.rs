use vstd::prelude::*;

verus! {

/// Extended window style: the window does not receive mouse input; clicks
/// fall through to the window below (Win32 `WS_EX_TRANSPARENT`).
pub const WS_EX_TRANSPARENT: u32 = 0x0000_0020;

/// Extended window style: a layered window (Win32 `WS_EX_LAYERED`).
pub const WS_EX_LAYERED: u32 = 0x0008_0000;

/// Extended window style: the window does not become the foreground window
/// when clicked and stays out of the tab order (Win32 `WS_EX_NOACTIVATE`).
pub const WS_EX_NOACTIVATE: u32 = 0x0800_0000;

/// The styles that let input pass through a window: the transparent,
/// layered and no-activate styles together.
pub open spec fn passthrough_flags() -> u32 {
    0x0808_0020u32
}

/// The extended style that makes a window with extended style `current`
/// pass mouse events through and stay out of the tab order: `current` with
/// the transparent, layered and no-activate styles added.
pub fn passthrough_ex_style(current: u32) -> (style: u32)
    ensures
        style == current | passthrough_flags(),
        style & current == current,
        style & 0x20u32 == 0x20u32,
        style & 0x0008_0000u32 == 0x0008_0000u32,
        style & 0x0800_0000u32 == 0x0800_0000u32,
        style & !(current | 0x0808_0020u32) == 0,
{
    assert(current | 0x20u32 | 0x0008_0000u32 | 0x0800_0000u32 == current | 0x0808_0020u32) by (bit_vector);
    assert((current | 0x0808_0020u32) & current == current) by (bit_vector);
    assert((current | 0x0808_0020u32) & 0x20u32 == 0x20u32) by (bit_vector);
    assert((current | 0x0808_0020u32) & 0x0008_0000u32 == 0x0008_0000u32) by (bit_vector);
    assert((current | 0x0808_0020u32) & 0x0800_0000u32 == 0x0800_0000u32) by (bit_vector);
    assert((current | 0x0808_0020u32) & !(current | 0x0808_0020u32) == 0) by (bit_vector);
    current | WS_EX_TRANSPARENT | WS_EX_LAYERED | WS_EX_NOACTIVATE
}

/// Making a window pass input through keeps every style it already had,
/// sets the transparent, layered and no-activate styles, and sets no other.
pub proof fn lemma_passthrough_style_bits(current: u32, bit: u32)
    requires
        bit < 32,
    ensures
        passthrough_flags() == WS_EX_TRANSPARENT | WS_EX_LAYERED | WS_EX_NOACTIVATE,
        (current | passthrough_flags()) & current == current,
        (current | passthrough_flags()) & WS_EX_TRANSPARENT == WS_EX_TRANSPARENT,
        (current | passthrough_flags()) & WS_EX_LAYERED == WS_EX_LAYERED,
        (current | passthrough_flags()) & WS_EX_NOACTIVATE == WS_EX_NOACTIVATE,
        ((current | passthrough_flags()) >> bit) & 1 == 1 ==> (current >> bit) & 1 == 1
            || bit == 5 || bit == 19 || bit == 27,
{
    assert(0x0808_0020u32 == 0x20u32 | 0x0008_0000u32 | 0x0800_0000u32) by (bit_vector);
    assert((current | 0x0808_0020u32) & current == current) by (bit_vector);
    assert((current | 0x0808_0020u32) & 0x20u32 == 0x20u32) by (bit_vector);
    assert((current | 0x0808_0020u32) & 0x0008_0000u32 == 0x0008_0000u32) by (bit_vector);
    assert((current | 0x0808_0020u32) & 0x0800_0000u32 == 0x0800_0000u32) by (bit_vector);
    assert(bit < 32 ==> (((current | 0x0808_0020u32) >> bit) & 1u32 == 1u32 ==> (current >> bit) & 1u32 == 1u32
        || bit == 5 || bit == 19 || bit == 27)) by (bit_vector);
}

/// Applying the pass-through styles a second time changes nothing.
pub proof fn lemma_passthrough_idempotent(current: u32)
    ensures
        (current | passthrough_flags()) | passthrough_flags() == current | passthrough_flags(),
{
    assert((current | 0x0808_0020u32) | 0x0808_0020u32 == current | 0x0808_0020u32) by (bit_vector);
}

} // verus!
