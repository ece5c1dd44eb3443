//! Reading SPIR-V shader binaries into the 32-bit words a shader module is created from.

use vstd::prelude::*;

verus! {

/// The first word of every SPIR-V module.
pub const SPIRV_MAGIC_NUMBER: u32 = 0x0723_0203;

/// Why a byte slice could not be read as a SPIR-V module.
#[derive(Clone, Copy, Debug, PartialEq, Eq, Structural)]
pub enum SpirvError {
    /// The slice holds no bytes at all.
    Empty,
    /// The slice does not begin with the magic number in either byte order.
    MissingMagicNumber,
    /// The slice begins with the magic number but its length is not a multiple of four.
    UnalignedLength,
}

/// The word made of four bytes, least significant byte first.
pub open spec fn word_le(b0: u8, b1: u8, b2: u8, b3: u8) -> int {
    b0 as int + 0x100 * (b1 as int) + 0x1_0000 * (b2 as int) + 0x100_0000 * (b3 as int)
}

/// The word made of four bytes, most significant byte first.
pub open spec fn word_be(b0: u8, b1: u8, b2: u8, b3: u8) -> int {
    word_le(b3, b2, b1, b0)
}

/// The module starts with the magic number stored least significant byte first.
pub open spec fn starts_little_endian(bytes: Seq<u8>) -> bool {
    bytes.len() >= 4 && word_le(bytes[0], bytes[1], bytes[2], bytes[3]) == SPIRV_MAGIC_NUMBER
}

/// The module starts with the magic number stored most significant byte first.
pub open spec fn starts_big_endian(bytes: Seq<u8>) -> bool {
    bytes.len() >= 4 && word_be(bytes[0], bytes[1], bytes[2], bytes[3]) == SPIRV_MAGIC_NUMBER
}

/// The bytes can be read as a SPIR-V module: they start with the magic number in one
/// of the two byte orders and divide into whole words.
pub open spec fn is_spirv(bytes: Seq<u8>) -> bool {
    (starts_little_endian(bytes) || starts_big_endian(bytes)) && bytes.len() % 4 == 0
}

/// The `i`-th word of a module, read in the byte order that its magic number shows.
pub open spec fn spirv_word(bytes: Seq<u8>, i: int) -> int {
    if starts_little_endian(bytes) {
        word_le(bytes[4 * i], bytes[4 * i + 1], bytes[4 * i + 2], bytes[4 * i + 3])
    } else {
        word_be(bytes[4 * i], bytes[4 * i + 1], bytes[4 * i + 2], bytes[4 * i + 3])
    }
}

/// The words of a module, in order.
pub open spec fn spirv_words(bytes: Seq<u8>) -> Seq<u32> {
    Seq::new((bytes.len() / 4) as nat, |i: int| spirv_word(bytes, i) as u32)
}

/// The error that reading `bytes` gives, where they are no SPIR-V module.
pub open spec fn spirv_error(bytes: Seq<u8>) -> SpirvError {
    if bytes.len() == 0 {
        SpirvError::Empty
    } else if !(starts_little_endian(bytes) || starts_big_endian(bytes)) {
        SpirvError::MissingMagicNumber
    } else {
        SpirvError::UnalignedLength
    }
}

/// Calls `wgpu::util::make_spirv_raw` and copies the words it yields.
///
/// Trusted: for a slice that starts with the magic number in either byte order and
/// whose length is a multiple of four (on any other slice the call panics), the result
/// holds one word per four bytes, each read in the byte order of the magic number, so
/// that the first word is always the magic number itself.
#[verifier::external_body]
fn make_spirv_raw(bytes: &[u8]) -> (words: Vec<u32>)
    requires
        is_spirv(bytes@),
    ensures
        words@ == spirv_words(bytes@),
{
    wgpu::util::make_spirv_raw(bytes).into_owned()
}

/// Reads a SPIR-V binary into its words, whichever byte order it was stored in.
pub fn read_spirv(bytes: &[u8]) -> (result: Result<Vec<u32>, SpirvError>)
    ensures
        result is Ok <==> is_spirv(bytes@),
        result matches Ok(words) ==> words@ == spirv_words(bytes@),
        result matches Err(e) ==> e == spirv_error(bytes@),
{
    if bytes.len() == 0 {
        return Err(SpirvError::Empty);
    }
    if bytes.len() < 4 {
        return Err(SpirvError::MissingMagicNumber);
    }
    let little = bytes[0] == 0x03 && bytes[1] == 0x02 && bytes[2] == 0x23 && bytes[3] == 0x07;
    let big = bytes[0] == 0x07 && bytes[1] == 0x23 && bytes[2] == 0x02 && bytes[3] == 0x03;
    assert(little == starts_little_endian(bytes@));
    assert(big == starts_big_endian(bytes@));
    if !little && !big {
        return Err(SpirvError::MissingMagicNumber);
    }
    if bytes.len() % 4 != 0 {
        return Err(SpirvError::UnalignedLength);
    }
    Ok(make_spirv_raw(bytes))
}

/// Every module that is read starts with the magic number, and has one word for each
/// four bytes.
pub proof fn lemma_spirv_words_start_with_magic(bytes: Seq<u8>)
    requires
        is_spirv(bytes),
    ensures
        spirv_words(bytes).len() * 4 == bytes.len(),
        spirv_words(bytes).len() >= 1,
        spirv_words(bytes)[0] == SPIRV_MAGIC_NUMBER,
{
}

} // verus!
