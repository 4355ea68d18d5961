use vstd::prelude::*;

verus! {

/// The diagnostic line that the firmware writes to its serial output:
/// the ASCII bytes of `Rust test string` followed by a line feed.
pub open spec fn diagnostic_line() -> Seq<u8> {
    seq![
        82, 117, 115, 116, 32,  // "Rust "
        116, 101, 115, 116, 32,  // "test "
        115, 116, 114, 105, 110, 103,  // "string"
        10,  // line feed
    ]
}

/// The bytes that the diagnostic write hands to the transmit primitive, on
/// the hardware target and on the host alike.
pub fn diagnostic_message() -> (r: Vec<u8>)
    ensures
        r@ == diagnostic_line(),
{
    let r: Vec<u8> = vec![
        82u8, 117, 115, 116, 32,  // "Rust "
        116, 101, 115, 116, 32,  // "test "
        115, 116, 114, 105, 110, 103,  // "string"
        10,  // line feed
    ];
    assert(r@ =~= diagnostic_line());
    r
}

/// The length argument of the HAL's interrupt-driven transmit primitive,
/// which counts bytes in 16 bits: `None` where the buffer is too long for it.
pub fn hal_transmit_len(len: usize) -> (r: Option<u16>)
    ensures
        len <= u16::MAX ==> r == Some(len as u16),
        len > u16::MAX ==> r is None,
{
    if len <= u16::MAX as usize {
        Some(len as u16)
    } else {
        None
    }
}

} // verus!
