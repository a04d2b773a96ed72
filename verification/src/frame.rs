//! The layout of one frame of the log: a salt of 22 bytes, a nonce of 12
//! bytes, the length of the ciphertext as four bytes, most significant
//! first, and the ciphertext. A file is frames laid end to end.

use vstd::prelude::*;

verus! {

/// Bytes of a frame that come before its ciphertext.
pub const HEADER_LEN: usize = 38;

/// Where the length field starts within a frame.
pub const LEN_FIELD_AT: usize = 34;

/// The four bytes that stand for `n`, most significant first.
pub open spec fn be_bytes(n: u32) -> Seq<u8> {
    seq![
        (n as int / 0x100_0000) as u8,
        (n as int / 0x1_0000 % 0x100) as u8,
        (n as int / 0x100 % 0x100) as u8,
        (n as int % 0x100) as u8,
    ]
}

/// The number that the first four bytes of `b` stand for, most significant
/// first.
pub open spec fn be_value(b: Seq<u8>) -> int
    recommends
        b.len() >= 4,
{
    b[0] as int * 0x100_0000 + b[1] as int * 0x1_0000 + b[2] as int * 0x100 + b[3] as int
}

/// The bytes of the frame that holds this salt, nonce and ciphertext.
pub open spec fn frame_bytes(salt: Seq<u8>, nonce: Seq<u8>, ciphertext: Seq<u8>) -> Seq<u8> {
    salt + nonce + be_bytes(ciphertext.len() as u32) + ciphertext
}

/// The length of the frame that `bytes` starts with, or `None` where the
/// header is cut short or announces more ciphertext than there is.
pub open spec fn frame_len(bytes: Seq<u8>) -> Option<int> {
    if bytes.len() < HEADER_LEN {
        None
    } else {
        let n = be_value(bytes.subrange(LEN_FIELD_AT as int, HEADER_LEN as int));
        if bytes.len() - HEADER_LEN < n {
            None
        } else {
            Some(HEADER_LEN + n)
        }
    }
}

/// Reading the length field gives back the number that was written.
pub proof fn lemma_be_round_trip(n: u32)
    ensures
        be_bytes(n).len() == 4,
        be_value(be_bytes(n)) == n,
{
}

/// A frame that is followed by anything at all is found again at the start:
/// its length is read from the header, and its three parts lie where they
/// were written.
pub proof fn lemma_frame_len_of_frame(
    salt: Seq<u8>,
    nonce: Seq<u8>,
    ciphertext: Seq<u8>,
    rest: Seq<u8>,
)
    requires
        salt.len() == 22,
        nonce.len() == 12,
        ciphertext.len() <= u32::MAX,
    ensures
        frame_len(frame_bytes(salt, nonce, ciphertext) + rest) == Some(
            HEADER_LEN + ciphertext.len(),
        ),
        frame_bytes(salt, nonce, ciphertext).len() == HEADER_LEN + ciphertext.len(),
        (frame_bytes(salt, nonce, ciphertext) + rest).subrange(0, 22) == salt,
        (frame_bytes(salt, nonce, ciphertext) + rest).subrange(22, 34) == nonce,
        (frame_bytes(salt, nonce, ciphertext) + rest).subrange(
            HEADER_LEN as int,
            HEADER_LEN + ciphertext.len(),
        ) == ciphertext,
        (frame_bytes(salt, nonce, ciphertext) + rest).skip(HEADER_LEN + ciphertext.len()) == rest,
{
    let n = ciphertext.len() as u32;
    let f = frame_bytes(salt, nonce, ciphertext);
    let all = f + rest;
    lemma_be_round_trip(n);
    assert(f.len() == 38 + ciphertext.len());
    assert(all.subrange(34, 38) =~= be_bytes(n));
    assert(all.subrange(0, 22) =~= salt);
    assert(all.subrange(22, 34) =~= nonce);
    assert(all.subrange(38, 38 + ciphertext.len() as int) =~= ciphertext);
    assert(all.skip(38 + ciphertext.len() as int) =~= rest);
}

/// The four bytes that stand for `n`, most significant first.
pub fn u32_to_be(n: u32) -> (b: [u8; 4])
    ensures
        b@ == be_bytes(n),
{
    let b: [u8; 4] = [
        (n / 0x100_0000) as u8,
        (n / 0x1_0000 % 0x100) as u8,
        (n / 0x100 % 0x100) as u8,
        (n % 0x100) as u8,
    ];
    proof {
        assert(b@ =~= be_bytes(n));
    }
    b
}

/// The number that the four bytes at `at` stand for, most significant first.
pub fn u32_from_be(bytes: &Vec<u8>, at: usize) -> (n: u32)
    requires
        at + 4 <= bytes.len(),
    ensures
        n == be_value(bytes@.subrange(at as int, at + 4)),
{
    let b0: u32 = bytes[at] as u32;
    let b1: u32 = bytes[at + 1] as u32;
    let b2: u32 = bytes[at + 2] as u32;
    let b3: u32 = bytes[at + 3] as u32;
    b0 * 0x100_0000 + b1 * 0x1_0000 + b2 * 0x100 + b3
}

/// The bytes of `bytes` from `from` up to `to`.
pub fn copy_bytes(bytes: &Vec<u8>, from: usize, to: usize) -> (out: Vec<u8>)
    requires
        from <= to <= bytes.len(),
    ensures
        out@ == bytes@.subrange(from as int, to as int),
{
    let mut out: Vec<u8> = Vec::new();
    let mut i: usize = from;
    while i < to
        invariant
            from <= i <= to,
            to <= bytes.len(),
            out@ == bytes@.subrange(from as int, i as int),
        decreases to - i,
    {
        out.push(bytes[i]);
        proof {
            assert(out@ =~= bytes@.subrange(from as int, i + 1));
        }
        i = i + 1;
    }
    out
}

/// Appends the bytes of `part` to `out`.
pub fn append_bytes(out: &mut Vec<u8>, part: &[u8])
    ensures
        final(out)@ == old(out)@ + part@,
{
    let ghost before = out@;
    let mut i: usize = 0;
    while i < part.len()
        invariant
            i <= part.len(),
            out@ == before + part@.subrange(0, i as int),
        decreases part.len() - i,
    {
        out.push(part[i]);
        proof {
            assert(out@ =~= before + part@.subrange(0, i + 1));
        }
        i = i + 1;
    }
    proof {
        assert(part@.subrange(0, part@.len() as int) =~= part@);
    }
}

} // verus!
