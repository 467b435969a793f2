//! The deterministic payload that the server streams to every client.

use vstd::prelude::*;

verus! {

/// The byte the payload holds at offset `i`: the offset reduced modulo 255.
///
/// The modulus is 255, not 256, so the value 255 never appears; the sequence
/// cycles through 0..=254. This quirk is part of the wire format and is kept
/// deliberately.
pub open spec fn payload_byte(i: nat) -> u8 {
    (i % 255) as u8
}

/// The whole payload of length `n`, as a mathematical sequence.
pub open spec fn payload_seq(n: nat) -> Seq<u8> {
    Seq::new(n, |i: int| payload_byte(i as nat))
}

/// Build the payload of length `n` that the server writes to one connection.
pub fn generate_payload(n: usize) -> (p: Vec<u8>)
    ensures
        p@ == payload_seq(n as nat),
{
    let mut p: Vec<u8> = Vec::new();
    let mut i: usize = 0;
    while i < n
        invariant
            i <= n,
            p@ == payload_seq(i as nat),
        decreases n - i,
    {
        assert(i % 255 < 255) by (nonlinear_arith);
        p.push((i % 255) as u8);
        assert(p@ =~= payload_seq((i + 1) as nat));
        i = i + 1;
    }
    p
}

/// The payload is a function of its length alone: any two sequences that both
/// satisfy the payload description of the same length are equal, and every
/// byte of them is its offset modulo 255.
pub proof fn lemma_payload_deterministic(a: Seq<u8>, b: Seq<u8>, n: nat)
    requires
        a == payload_seq(n),
        b == payload_seq(n),
    ensures
        a == b,
        forall|i: int| 0 <= i < n ==> a[i] == (i % 255) as u8,
{
}

} // verus!
