use vstd::prelude::*;

verus! {

/// Why a shader binary cannot become a shader module.
#[derive(Clone, Copy, Debug, PartialEq, Eq, Structural)]
pub enum ShaderCodeError {
    /// The binary holds no bytes.
    Empty,
    /// The length of the binary is not a multiple of four bytes.
    Misaligned,
}

/// The 32-bit word at word index `i`, read little-endian.
pub open spec fn word_at(bytes: Seq<u8>, i: int) -> u32 {
    (bytes[4 * i] + bytes[4 * i + 1] * 256 + bytes[4 * i + 2] * 65536 + bytes[4 * i + 3]
        * 16777216) as u32
}

/// Turns a shader binary into the 32-bit words that a shader module is created from.
/// Fails on an empty binary and on one whose length is not a whole number of words.
pub fn shader_code_words(bytes: &Vec<u8>) -> (r: Result<Vec<u32>, ShaderCodeError>)
    ensures
        r == Err::<Vec<u32>, ShaderCodeError>(ShaderCodeError::Empty) <==> bytes@.len() == 0,
        r == Err::<Vec<u32>, ShaderCodeError>(ShaderCodeError::Misaligned) <==> (bytes@.len() > 0
            && bytes@.len() % 4 != 0),
        r matches Ok(words) ==> words@.len() * 4 == bytes@.len() && forall|i: int|
            0 <= i < words@.len() ==> #[trigger] words@[i] == word_at(bytes@, i),
{
    if bytes.len() == 0 {
        return Err(ShaderCodeError::Empty);
    }
    if bytes.len() % 4 != 0 {
        return Err(ShaderCodeError::Misaligned);
    }
    let len = bytes.len();
    let count = len / 4;
    let mut words: Vec<u32> = Vec::new();
    let mut i: usize = 0;
    while i < count
        invariant
            len == bytes@.len(),
            count * 4 == len,
            0 <= i <= count,
            words@.len() == i,
            forall|k: int| 0 <= k < i ==> #[trigger] words@[k] == word_at(bytes@, k),
        decreases count - i,
    {
        assert(4 * i + 3 < bytes@.len());
        let b0 = bytes[4 * i] as u32;
        let b1 = bytes[4 * i + 1] as u32;
        let b2 = bytes[4 * i + 2] as u32;
        let b3 = bytes[4 * i + 3] as u32;
        let word = b0 + b1 * 256 + b2 * 65536 + b3 * 16777216;
        words.push(word);
        i = i + 1;
    }
    Ok(words)
}

} // verus!
