//! The datagram that sets a variable of the simulator.

use crate::providers::xpln11_provider::datagram::encode_float_data;
use crate::providers::xpln11_provider::datagram::word_bytes;
use vstd::prelude::*;

verus! {

/// Bytes of every datagram that sets a simulator variable.
pub const DREF_MESSAGE_SIZE_VALUE: usize = 509;

/// Bytes of such a datagram that are left for the variable's path.
pub const DREF_PATH_SIZE_VALUE: usize = 500;

/// The simulator variable that holds the yoke's pitch ratio.
pub const YOKE_PITCH_RATIO: &'static str = "sim/joystick/yoke_pitch_ratio";

/// The prologue of a datagram that sets a simulator variable: the letters
/// `DREF` and the digit `0`.
pub open spec fn dref_prologue() -> Seq<u8> {
    seq![0x44u8, 0x52u8, 0x45u8, 0x46u8, 0x30u8]
}

/// The datagram that sets the simulator variable at `path` to `value`: the
/// prologue, the value as a little-endian single-precision number, the path,
/// and zero bytes up to 509 bytes in all.
pub open spec fn dref_message(value: u32, path: Seq<u8>) -> Seq<u8> {
    dref_prologue() + word_bytes(value) + path + Seq::new(
        (500 - path.len()) as nat,
        |i: int| 0u8,
    )
}

/// Writes the datagram that sets the simulator variable at `path` to `value`.
/// A path of more than 500 bytes does not fit, and yields nothing.
pub fn encode_dref(value: u32, path: &[u8]) -> (message: Option<Vec<u8>>)
    ensures
        message is Some <==> path@.len() <= 500,
        message matches Some(bytes) ==> bytes@ == dref_message(value, path@) && bytes@.len()
            == 509,
{
    if path.len() > DREF_PATH_SIZE_VALUE {
        return None;
    }
    let mut bytes: Vec<u8> = Vec::with_capacity(DREF_MESSAGE_SIZE_VALUE);
    bytes.push(0x44);
    bytes.push(0x52);
    bytes.push(0x45);
    bytes.push(0x46);
    bytes.push(0x30);
    assert(bytes@ =~= dref_prologue());
    encode_float_data(&mut bytes, value);
    let mut i: usize = 0;
    while i < path.len()
        invariant
            i <= path@.len() <= 500,
            bytes@ == dref_prologue() + word_bytes(value) + path@.take(i as int),
        decreases path@.len() - i,
    {
        bytes.push(path[i]);
        assert(path@.take(i as int + 1) =~= path@.take(i as int).push(path@[i as int]));
        assert(bytes@ =~= dref_prologue() + word_bytes(value) + path@.take(i as int + 1));
        i = i + 1;
    }
    assert(path@.take(i as int) =~= path@);
    let mut n: usize = bytes.len();
    while n < DREF_MESSAGE_SIZE_VALUE
        invariant
            path@.len() <= 500,
            9 + path@.len() <= n <= 509,
            n == bytes@.len(),
            bytes@ == dref_prologue() + word_bytes(value) + path@ + Seq::new(
                (n - 9 - path@.len()) as nat,
                |i: int| 0u8,
            ),
        decreases 509 - n,
    {
        bytes.push(0);
        assert(bytes@ =~= dref_prologue() + word_bytes(value) + path@ + Seq::new(
            (n + 1 - 9 - path@.len()) as nat,
            |i: int| 0u8,
        ));
        n = n + 1;
    }
    Some(bytes)
}

} // verus!
