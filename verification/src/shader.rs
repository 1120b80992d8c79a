//! Turning a shader binary, a byte stream, into the 32-bit little-endian
//! words the device's shader-module constructor consumes.

use vstd::prelude::*;

use byteorder::ByteOrder;
use byteorder::LittleEndian;

use crate::error::RenderError;

verus! {

/// The little-endian 32-bit word starting at byte offset `4 * i` of `b`.
pub open spec fn le_word_at(b: Seq<u8>, i: int) -> u32
    recommends
        0 <= i,
        4 * i + 4 <= b.len(),
{
    (b[4 * i] + b[4 * i + 1] * 0x100 + b[4 * i + 2] * 0x10000 + b[4 * i + 3] * 0x1000000) as u32
}

/// Relies on byteorder's `LittleEndian::read_u32_into`: it fills `dst` with
/// the little-endian `u32`s of consecutive four-byte chunks of `src`, and
/// panics unless `src.len() == 4 * dst.len()`.
#[verifier::external_body]
fn read_le_words(bytes: &Vec<u8>) -> (r: Vec<u32>)
    requires
        bytes@.len() % 4 == 0,
    ensures
        r@.len() == bytes@.len() / 4,
        forall|i: int| 0 <= i < r@.len() ==> r@[i] == le_word_at(bytes@, i),
{
    let mut words: Vec<u32> = vec![0u32; bytes.len() / 4];
    LittleEndian::read_u32_into(bytes, &mut words);
    words
}

/// Decode a shader binary into 32-bit words. Fails exactly when the byte
/// length is not a multiple of four.
pub fn shader_words(code: &Vec<u8>) -> (r: Result<Vec<u32>, RenderError>)
    ensures
        code@.len() % 4 != 0 ==> r == Err::<Vec<u32>, RenderError>(
            RenderError::InvalidShaderLength { len: code@.len() as usize },
        ),
        code@.len() % 4 == 0 ==> match r {
            Ok(words) => {
                &&& words@.len() == code@.len() / 4
                &&& forall|i: int| 0 <= i < words@.len() ==> words@[i] == le_word_at(code@, i)
            },
            Err(_) => false,
        },
{
    if code.len() % 4 != 0 {
        Err(RenderError::InvalidShaderLength { len: code.len() })
    } else {
        Ok(read_le_words(code))
    }
}

} // verus!
