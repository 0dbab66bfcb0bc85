use vstd::prelude::*;

verus! {

/// The word whose big-endian bytes are `b0 b1 b2 b3`.
pub open spec fn be_word(b0: u8, b1: u8, b2: u8, b3: u8) -> u32 {
    (b0 as int * 0x100_0000 + b1 as int * 0x1_0000 + b2 as int * 0x100 + b3 as int) as u32
}

/// The words of a program image: each group of four bytes, big-endian, in order.
pub open spec fn words_of(bytes: Seq<u8>) -> Seq<u32> {
    Seq::new(
        bytes.len() / 4,
        |i: int| be_word(bytes[4 * i], bytes[4 * i + 1], bytes[4 * i + 2], bytes[4 * i + 3]),
    )
}

fn word_from_be(b0: u8, b1: u8, b2: u8, b3: u8) -> (r: u32)
    ensures
        r == be_word(b0, b1, b2, b3),
{
    (b0 as u32) * 0x100_0000 + (b1 as u32) * 0x1_0000 + (b2 as u32) * 0x100 + (b3 as u32)
}

/// Reads a program image. `None` when a partial word of one to three bytes is
/// left at the end; an empty image gives an empty program.
pub fn program_from_bytes(bytes: &[u8]) -> (r: Option<Vec<u32>>)
    ensures
        r.is_some() <==> bytes@.len() % 4 == 0,
        r matches Some(words) ==> words@ == words_of(bytes@),
{
    if bytes.len() % 4 != 0 {
        return None;
    }
    let len = bytes.len();
    let n = len / 4;
    assert(4 * n == len) by (nonlinear_arith)
        requires
            len % 4 == 0,
            n == len / 4,
    ;
    let mut prog: Vec<u32> = Vec::new();
    let mut k: usize = 0;
    while k < n
        invariant
            n == bytes@.len() / 4,
            4 * n == len,
            len == bytes@.len(),
            k <= n,
            prog@ == words_of(bytes@).take(k as int),
        decreases n - k,
    {
        assert(4 * k + 4 <= bytes@.len()) by (nonlinear_arith)
            requires
                k < n,
                4 * n == len,
                len == bytes@.len(),
        ;
        let i = 4 * k;
        let w = word_from_be(bytes[i], bytes[i + 1], bytes[i + 2], bytes[i + 3]);
        prog.push(w);
        k = k + 1;
        assert(prog@ =~= words_of(bytes@).take(k as int));
    }
    assert(prog@ =~= words_of(bytes@));
    Some(prog)
}

} // verus!
