use vstd::prelude::*;

verus! {

/// Big-endian value of a byte sequence.
pub open spec fn be_value(bytes: Seq<u8>) -> nat
    decreases bytes.len(),
{
    if bytes.len() == 0 {
        0
    } else {
        be_value(bytes.drop_last()) * 256 + bytes.last() as nat
    }
}

/// The identifier of a device with the given link-layer address: the six
/// address bytes left-padded with two zero bytes, read as a big-endian `u64`.
pub open spec fn id_of_mac(mac: Seq<u8>) -> nat {
    be_value(seq![0u8, 0u8] + mac)
}

proof fn lemma_be_value_leading_zero(bytes: Seq<u8>)
    ensures
        be_value(seq![0u8] + bytes) == be_value(bytes),
    decreases bytes.len(),
{
    let padded = seq![0u8] + bytes;
    if bytes.len() == 0 {
        assert(padded.drop_last() =~= Seq::<u8>::empty());
        assert(be_value(Seq::<u8>::empty()) == 0);
        assert(padded.last() == 0u8);
    } else {
        lemma_be_value_leading_zero(bytes.drop_last());
        assert(padded.drop_last() =~= seq![0u8] + bytes.drop_last());
        assert(padded.last() == bytes.last());
    }
}

proof fn lemma_be_value_bound(bytes: Seq<u8>)
    ensures
        be_value(bytes) < pow256(bytes.len()),
    decreases bytes.len(),
{
    if bytes.len() > 0 {
        let init = bytes.drop_last();
        lemma_be_value_bound(init);
        let a = be_value(init);
        let p = pow256(init.len());
        assert(a * 256 + (bytes.last() as nat) < p * 256) by (nonlinear_arith)
            requires
                a < p,
                bytes.last() < 256,
        ;
    }
}

/// 256 to the power `n`.
pub open spec fn pow256(n: nat) -> nat
    decreases n,
{
    if n == 0 {
        1
    } else {
        pow256((n - 1) as nat) * 256
    }
}

/// Derives the device identifier from a 6-byte hardware address: the
/// address is left-padded with two zero bytes and read big-endian, so the
/// identifier is the 48-bit address itself.
pub fn create_id_from_mac(mac_address: [u8; 6]) -> (id: u64)
    ensures
        id as nat == id_of_mac(mac_address@),
        id as nat == be_value(mac_address@),
        id < 0x1_0000_0000_0000,
{
    let mut acc: u64 = 0;
    let mut i: usize = 0;
    while i < 6
        invariant
            i <= 6,
            acc as nat == be_value(mac_address@.subrange(0, i as int)),
        decreases 6 - i,
    {
        proof {
            lemma_be_value_bound(mac_address@.subrange(0, i as int));
            assert(pow256(i as nat) <= pow256(5)) by {
                lemma_pow256_mono(i as nat, 5);
            }
            assert(pow256(5) == 1099511627776) by {
                reveal_with_fuel(pow256, 6);
            }
            let s = mac_address@.subrange(0, i as int + 1);
            assert(s.drop_last() =~= mac_address@.subrange(0, i as int));
        }
        acc = acc * 256 + mac_address[i] as u64;
        i = i + 1;
    }
    proof {
        assert(mac_address@.subrange(0, 6) =~= mac_address@);
        lemma_be_value_bound(mac_address@);
        assert(pow256(6) == 281474976710656) by {
            reveal_with_fuel(pow256, 7);
        }
        lemma_be_value_leading_zero(mac_address@);
        lemma_be_value_leading_zero(seq![0u8] + mac_address@);
        assert(seq![0u8, 0u8] + mac_address@ =~= seq![0u8] + (seq![0u8] + mac_address@));
    }
    acc
}

proof fn lemma_pow256_mono(a: nat, b: nat)
    requires
        a <= b,
    ensures
        pow256(a) <= pow256(b),
    decreases b,
{
    if a < b {
        lemma_pow256_mono(a, (b - 1) as nat);
    }
}

} // verus!
