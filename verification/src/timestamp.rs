use vstd::prelude::*;

verus! {

/// A 64-bit fixed-point NTP timestamp: seconds since the NTP epoch and
/// fractional seconds, as read from the transmit-time field of one NTP
/// response. Fetched once, used once.
#[derive(Clone, Copy, Debug, PartialEq, Eq, Structural)]
pub struct NtpTimestamp {
    pub sec: u32,
    pub frac: u32,
}

/// The four bytes of `x` in big-endian order.
pub open spec fn be_bytes_u32(x: u32) -> Seq<u8> {
    seq![
        ((x >> 24) & 0xff) as u8,
        ((x >> 16) & 0xff) as u8,
        ((x >> 8) & 0xff) as u8,
        (x & 0xff) as u8,
    ]
}

/// The 8-byte wire form of a timestamp: big-endian seconds, then
/// big-endian fraction.
pub open spec fn spec_time_bytes(t: NtpTimestamp) -> Seq<u8> {
    be_bytes_u32(t.sec) + be_bytes_u32(t.frac)
}

/// The big-endian bytes of `x` really are its base-256 digits, most
/// significant first.
pub proof fn lemma_be_bytes_u32_value(x: u32)
    ensures
        be_bytes_u32(x).len() == 4,
        x == be_bytes_u32(x)[0] * 0x1000000 + be_bytes_u32(x)[1] * 0x10000 + be_bytes_u32(x)[2]
            * 0x100 + be_bytes_u32(x)[3],
{
    assert(x == ((x >> 24) & 0xff) * 0x1000000 + ((x >> 16) & 0xff) * 0x10000 + ((x >> 8) & 0xff)
        * 0x100 + (x & 0xff)) by (bit_vector);
    assert((x >> 24) & 0xff < 256 && (x >> 16) & 0xff < 256 && (x >> 8) & 0xff < 256 && x & 0xff
        < 256) by (bit_vector);
}

impl NtpTimestamp {
    /// Serializes both halves big-endian and concatenates seconds bytes
    /// then fraction bytes.
    pub fn to_bytes(&self) -> (r: [u8; 8])
        ensures
            r@ == spec_time_bytes(*self),
    {
        let s = self.sec;
        let f = self.frac;
        let r: [u8; 8] = [
            ((s >> 24) & 0xff) as u8,
            ((s >> 16) & 0xff) as u8,
            ((s >> 8) & 0xff) as u8,
            (s & 0xff) as u8,
            ((f >> 24) & 0xff) as u8,
            ((f >> 16) & 0xff) as u8,
            ((f >> 8) & 0xff) as u8,
            (f & 0xff) as u8,
        ];
        proof {
            assert(r@ =~= spec_time_bytes(*self));
        }
        r
    }
}

} // verus!
