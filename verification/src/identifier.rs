use vstd::prelude::*;
use vstd::string::StrSliceExecFns;
use vstd::string::StringSliceAdditionalSpecFns;

verus! {

/// The per-machine value that seeds the prefix derivation: either a 6-byte
/// physical MAC address, or an arbitrary UTF-8 string taken as raw bytes.
pub enum Identifier {
    MacAddressIdentifier([u8; 6]),
    StringIdentifier(Vec<u8>),
}

/// The modified EUI-64 token derived from a 6-byte MAC address `m0..m5`:
/// the universal/local bit of `m0` is set and the multicast bit cleared,
/// and the `FF FE` separator is inserted at the midpoint.
pub open spec fn normalized_mac(m: Seq<u8>) -> Seq<u8>
    recommends
        m.len() == 6,
{
    seq![
        (m[0] | 0x02) & 0xfe,
        m[1],
        m[2],
        0xff,
        0xfe,
        m[3],
        m[4],
        m[5],
    ]
}

/// The canonical byte sequence an identifier contributes to the digest
/// input: the EUI-64 token for a MAC address, the raw bytes unchanged for a
/// string identifier.
pub open spec fn spec_normalize(id: Identifier) -> Seq<u8> {
    match id {
        Identifier::MacAddressIdentifier(m) => normalized_mac(m@),
        Identifier::StringIdentifier(v) => v@,
    }
}

impl Identifier {
    /// Wraps a string identifier's UTF-8 bytes, so that normalization is
    /// the identity on them.
    pub fn from_str_bytes(s: &str) -> (id: Identifier)
        ensures
            id matches Identifier::StringIdentifier(v) && v@ == s.spec_bytes(),
    {
        Identifier::StringIdentifier(s.as_bytes_vec())
    }

    /// Normalization into the RFC 4193 "System ID" input bytes: pure,
    /// deterministic, with no failure mode. Length 8 for a MAC address,
    /// the raw bytes (any length) for a string identifier.
    pub fn normalize(&self) -> (r: Vec<u8>)
        ensures
            r@ == spec_normalize(*self),
    {
        match self {
            Identifier::MacAddressIdentifier(m) => {
                let mut v: Vec<u8> = Vec::new();
                v.push((m[0] | 0x02) & 0xfe);
                v.push(m[1]);
                v.push(m[2]);
                v.push(0xff);
                v.push(0xfe);
                v.push(m[3]);
                v.push(m[4]);
                v.push(m[5]);
                proof {
                    assert(v@ =~= normalized_mac(m@));
                }
                v
            },
            Identifier::StringIdentifier(bytes) => {
                let mut v: Vec<u8> = Vec::new();
                let mut i: usize = 0;
                while i < bytes.len()
                    invariant
                        i <= bytes@.len(),
                        v@ == bytes@.subrange(0, i as int),
                    decreases bytes@.len() - i,
                {
                    v.push(bytes[i]);
                    i += 1;
                    proof {
                        assert(v@ =~= bytes@.subrange(0, i as int));
                    }
                }
                proof {
                    assert(v@ =~= bytes@);
                }
                v
            },
        }
    }
}

/// For every MAC address, the normalized token has length 8, carries the
/// `FF FE` separator at bytes 3 and 4, and has the universal/local bit
/// (0x02) of byte 0 set.
pub proof fn lemma_mac_normalize_shape(m: Seq<u8>)
    requires
        m.len() == 6,
    ensures
        normalized_mac(m).len() == 8,
        normalized_mac(m)[3] == 0xff,
        normalized_mac(m)[4] == 0xfe,
        normalized_mac(m)[0] & 0x02 == 0x02,
{
    let b = m[0];
    assert(((b | 0x02) & 0xfe) & 0x02 == 0x02) by (bit_vector);
}

/// For every string identifier, normalization is the identity on its raw
/// bytes.
pub proof fn lemma_string_normalize_identity(v: Vec<u8>)
    ensures
        spec_normalize(Identifier::StringIdentifier(v)) == v@,
{
}

} // verus!
