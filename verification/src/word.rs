use vstd::prelude::*;

verus! {

/// The eight bytes that an access keeps of a value read or written: the value itself
/// when it has exactly eight bytes, and eight zero bytes otherwise.
pub open spec fn word_of(input: Seq<u8>) -> Seq<u8> {
    if input.len() == 8 {
        input
    } else {
        Seq::new(8, |i: int| 0u8)
    }
}

/// Reads a word of eight bytes out of a byte vector.
///
/// The result is always `Some`: an input of any other length gives eight zero bytes.
pub fn to_bytes(input: Vec<u8>) -> (res: Option<[u8; 8]>)
    ensures
        res is Some,
        res.unwrap()@ == word_of(input@),
{
    if input.len() != 8 {
        let zeros: [u8; 8] = [0, 0, 0, 0, 0, 0, 0, 0];
        assert(zeros@ =~= word_of(input@));
        Some(zeros)
    } else {
        let word: [u8; 8] = [
            input[0],
            input[1],
            input[2],
            input[3],
            input[4],
            input[5],
            input[6],
            input[7],
        ];
        assert(word@ =~= word_of(input@));
        Some(word)
    }
}

/// Writes a word of eight bytes out as a byte vector holding the same eight bytes.
pub fn from_bytes(input: [u8; 8]) -> (res: Vec<u8>)
    ensures
        res@ == input@,
{
    let res = vec![input[0], input[1], input[2], input[3], input[4], input[5], input[6], input[7]];
    assert(res@ =~= input@);
    res
}

} // verus!
