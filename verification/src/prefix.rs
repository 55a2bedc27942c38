use vstd::prelude::*;
use vstd::string::StringExecFns;

use crate::digest::{sha1_digest, sha1_of};
use crate::error::UlaError;
use crate::hexfmt::{colon_str, nibble_str, spec_prefix_str};
use crate::identifier::{spec_normalize, Identifier};

verus! {

/// An 8-byte /48-aligned ULA prefix: the fixed local-assignment marker
/// `0xfd`, five bytes drawn from a SHA-1 digest, and two reserved zero
/// bytes left for the operator's /48 to /64 subnet field.
#[derive(Debug)]
pub struct UlaPrefix(pub [u8; 8]);

impl View for UlaPrefix {
    type V = Seq<u8>;

    open spec fn view(&self) -> Seq<u8> {
        self.0@
    }
}

impl UlaPrefix {
    /// The shape every derived prefix has: marker byte first, reserved
    /// zero bytes last.
    pub open spec fn wf(&self) -> bool {
        &&& self@.len() == 8
        &&& self@[0] == 0xfd
        &&& self@[6] == 0x00
        &&& self@[7] == 0x00
    }

    /// The canonical colon-hex rendering: lowercase hex, a colon after
    /// every second byte except the last pair.
    pub fn to_string(&self) -> (r: String)
        ensures
            r@ == spec_prefix_str(self@),
    {
        let mut r = String::new();
        r.append(nibble_str(self.0[0] / 16));
        r.append(nibble_str(self.0[0] % 16));
        r.append(nibble_str(self.0[1] / 16));
        r.append(nibble_str(self.0[1] % 16));
        r.append(colon_str());
        r.append(nibble_str(self.0[2] / 16));
        r.append(nibble_str(self.0[2] % 16));
        r.append(nibble_str(self.0[3] / 16));
        r.append(nibble_str(self.0[3] % 16));
        r.append(colon_str());
        r.append(nibble_str(self.0[4] / 16));
        r.append(nibble_str(self.0[4] % 16));
        r.append(nibble_str(self.0[5] / 16));
        r.append(nibble_str(self.0[5] % 16));
        r.append(colon_str());
        r.append(nibble_str(self.0[6] / 16));
        r.append(nibble_str(self.0[6] % 16));
        r.append(nibble_str(self.0[7] / 16));
        r.append(nibble_str(self.0[7] % 16));
        proof {
            assert(r@ =~= spec_prefix_str(self@));
        }
        r
    }
}

/// The prefix derived from an 8-byte timestamp and normalized identifier
/// bytes: SHA-1 is taken over `time + id` (time bytes first), and the
/// digest's last five bytes stand between the `0xfd` marker and the two
/// reserved zero bytes.
pub open spec fn spec_generate(time: Seq<u8>, id: Seq<u8>) -> Seq<u8> {
    let d = sha1_of(time + id);
    seq![0xfdu8, d[15], d[16], d[17], d[18], d[19], 0x00u8, 0x00u8]
}

/// Builds the digest input `ntp_time_bytes` then `identifier_bytes` —
/// order is significant for interoperability — hashes it, and packs the
/// digest's last five bytes into the prefix. Pure and total: the digest
/// and packing steps cannot fail.
pub fn generate_ula_prefix(identifier_bytes: &[u8], ntp_time_bytes: &[u8; 8]) -> (p: UlaPrefix)
    ensures
        p@ == spec_generate(ntp_time_bytes@, identifier_bytes@),
        p.wf(),
{
    let mut input: Vec<u8> = Vec::new();
    let mut i: usize = 0;
    while i < 8
        invariant
            i <= 8,
            input@ == ntp_time_bytes@.subrange(0, i as int),
        decreases 8 - i,
    {
        input.push(ntp_time_bytes[i]);
        i += 1;
        proof {
            assert(input@ =~= ntp_time_bytes@.subrange(0, i as int));
        }
    }
    proof {
        assert(input@ =~= ntp_time_bytes@);
    }
    let mut j: usize = 0;
    while j < identifier_bytes.len()
        invariant
            j <= identifier_bytes@.len(),
            input@ == ntp_time_bytes@ + identifier_bytes@.subrange(0, j as int),
        decreases identifier_bytes@.len() - j,
    {
        input.push(identifier_bytes[j]);
        j += 1;
        proof {
            assert(input@ =~= ntp_time_bytes@ + identifier_bytes@.subrange(0, j as int));
        }
    }
    proof {
        assert(input@ =~= ntp_time_bytes@ + identifier_bytes@);
    }
    let d = sha1_digest(input.as_slice());
    let p = UlaPrefix([0xfd, d[15], d[16], d[17], d[18], d[19], 0x00, 0x00]);
    proof {
        assert(p@ =~= spec_generate(ntp_time_bytes@, identifier_bytes@));
    }
    p
}

/// The composed derivation, fed with what the time source handed back: a
/// network failure short-circuits unchanged and the digest is never taken
/// over a partial or fabricated timestamp, while a fetched timestamp
/// yields exactly the prefix of the normalized identifier and that time.
pub fn generate_ula_prefix_from_fetch(identifier: &Identifier, fetched: Result<[u8; 8], UlaError>)
    -> (r: Result<UlaPrefix, UlaError>)
    ensures
        match fetched {
            Ok(t) => r matches Ok(p) && p@ == spec_generate(t@, spec_normalize(*identifier))
                && p.wf(),
            Err(e) => r == Err::<UlaPrefix, UlaError>(e),
        },
{
    match fetched {
        Ok(t) => {
            let id_bytes = identifier.normalize();
            Ok(generate_ula_prefix(id_bytes.as_slice(), &t))
        },
        Err(e) => Err(e),
    }
}

/// Derivation is deterministic: identical timestamp and identifier bytes
/// always yield the identical prefix.
pub proof fn lemma_generate_deterministic(t1: Seq<u8>, id1: Seq<u8>, t2: Seq<u8>, id2: Seq<u8>)
    requires
        t1 == t2,
        id1 == id2,
    ensures
        spec_generate(t1, id1) == spec_generate(t2, id2),
{
}

/// Every derived prefix carries the ULA marker `0xfd` in byte 0 and zero
/// bytes in bytes 6 and 7, whatever the digest came to.
pub proof fn lemma_generate_shape(time: Seq<u8>, id: Seq<u8>)
    ensures
        spec_generate(time, id).len() == 8,
        spec_generate(time, id)[0] == 0xfd,
        spec_generate(time, id)[6] == 0x00,
        spec_generate(time, id)[7] == 0x00,
{
}

} // verus!
