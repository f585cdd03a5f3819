//! Argument bytes of the address-window commands of a TFT panel controller.
use vstd::prelude::*;

verus! {

/// The big-endian bytes of the inclusive address range `[start, end]`.
pub open spec fn window_bytes(start: u16, end: u16) -> Seq<u8> {
    seq![(start / 256) as u8, (start % 256) as u8, (end / 256) as u8, (end % 256) as u8]
}

/// Argument bytes of a column or page address command for `[start, end]`.
pub fn address_window(start: u16, end: u16) -> (r: [u8; 4])
    ensures
        r@ == window_bytes(start, end),
{
    let r = [(start / 256) as u8, (start % 256) as u8, (end / 256) as u8, (end % 256) as u8];
    assert(r@ =~= window_bytes(start, end));
    r
}

} // verus!
