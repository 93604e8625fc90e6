//! Portable precompiled artifacts. An artifact is a fixed header — magic,
//! format version, engine-configuration fingerprint — followed by the
//! compiled image. Decoding checks the header against the decoding engine's
//! own fingerprint, so an artifact built for a different configuration is
//! rejected instead of trusted.

use vstd::prelude::*;

use crate::config::{fingerprint, fingerprint_spec, lemma_fingerprint_injective, HostConfig,
    FINGERPRINT_LEN};
use crate::errors::DeserializeError;

verus! {

/// Artifact format version.
pub const ARTIFACT_VERSION: u8 = 1;

/// Total header length: four magic bytes, one version byte, the fingerprint.
pub const ARTIFACT_HEADER_LEN: usize = 24;

/// The four magic bytes opening every artifact.
pub open spec fn artifact_magic() -> Seq<u8> {
    seq![0x57u8, 0x48u8, 0x4du8, 0x31u8]
}

/// The bytes of an artifact carrying `payload` for configuration `c`.
pub open spec fn artifact_bytes(c: HostConfig, payload: Seq<u8>) -> Seq<u8> {
    artifact_magic() + seq![ARTIFACT_VERSION] + fingerprint_spec(c) + payload
}

/// The header is structurally sound: long enough, right magic, right version.
pub open spec fn header_ok(bytes: Seq<u8>) -> bool {
    &&& bytes.len() >= ARTIFACT_HEADER_LEN
    &&& bytes.subrange(0, 4) == artifact_magic()
    &&& bytes[4] == ARTIFACT_VERSION
}

/// The fingerprint carried by a structurally sound artifact.
pub open spec fn carried_fingerprint(bytes: Seq<u8>) -> Seq<u8> {
    bytes.subrange(5, ARTIFACT_HEADER_LEN as int)
}

/// What decoding an artifact under configuration `c` yields: the payload,
/// or the exact error owed — `Malformed` for a broken header,
/// `EngineMismatch` for a foreign fingerprint.
pub open spec fn decode_spec(c: HostConfig, bytes: Seq<u8>) -> Result<Seq<u8>, DeserializeError> {
    if !header_ok(bytes) {
        Err(DeserializeError::Malformed)
    } else if carried_fingerprint(bytes) != fingerprint_spec(c) {
        Err(DeserializeError::EngineMismatch)
    } else {
        Ok(bytes.skip(ARTIFACT_HEADER_LEN as int))
    }
}

/// Frames `payload` as an artifact for configuration `c`.
pub fn encode_artifact(c: &HostConfig, payload: &Vec<u8>) -> (r: Vec<u8>)
    ensures
        r@ == artifact_bytes(*c, payload@),
{
    let mut r: Vec<u8> = Vec::new();
    r.push(0x57);
    r.push(0x48);
    r.push(0x4d);
    r.push(0x31);
    r.push(ARTIFACT_VERSION);
    let fp = fingerprint(c);
    let mut i: usize = 0;
    while i < fp.len()
        invariant
            0 <= i <= fp@.len(),
            fp@ == fingerprint_spec(*c),
            r@ == artifact_magic() + seq![ARTIFACT_VERSION] + fp@.subrange(0, i as int),
        decreases fp@.len() - i,
    {
        let b = fp[i];
        r.push(b);
        proof {
            assert(r@ =~= artifact_magic() + seq![ARTIFACT_VERSION]
                + fp@.subrange(0, i + 1 as int));
        }
        i += 1;
    }
    proof {
        assert(fp@.subrange(0, fp@.len() as int) =~= fp@);
    }
    let mut j: usize = 0;
    while j < payload.len()
        invariant
            0 <= j <= payload@.len(),
            r@ == artifact_magic() + seq![ARTIFACT_VERSION] + fingerprint_spec(*c)
                + payload@.subrange(0, j as int),
        decreases payload@.len() - j,
    {
        let b = payload[j];
        r.push(b);
        proof {
            assert(r@ =~= artifact_magic() + seq![ARTIFACT_VERSION] + fingerprint_spec(*c)
                + payload@.subrange(0, j + 1 as int));
        }
        j += 1;
    }
    proof {
        assert(payload@.subrange(0, payload@.len() as int) =~= payload@);
        assert(r@ =~= artifact_bytes(*c, payload@));
    }
    r
}

/// Decodes an artifact under configuration `c`, returning the payload or
/// the exact error `decode_spec` owes.
pub fn decode_artifact(c: &HostConfig, bytes: &Vec<u8>) -> (r: Result<Vec<u8>, DeserializeError>)
    ensures
        r is Ok <==> decode_spec(*c, bytes@) is Ok,
        r matches Ok(p) ==> p@ == decode_spec(*c, bytes@)->Ok_0,
        r matches Err(e) ==> e == decode_spec(*c, bytes@)->Err_0,
{
    if bytes.len() < ARTIFACT_HEADER_LEN {
        return Err(DeserializeError::Malformed);
    }
    if bytes[0] != 0x57 || bytes[1] != 0x48 || bytes[2] != 0x4d || bytes[3] != 0x31 {
        proof {
            assert(bytes@.subrange(0, 4) != artifact_magic()) by {
                if bytes@.subrange(0, 4) == artifact_magic() {
                    assert(bytes@.subrange(0, 4)[0] == artifact_magic()[0]);
                    assert(bytes@.subrange(0, 4)[1] == artifact_magic()[1]);
                    assert(bytes@.subrange(0, 4)[2] == artifact_magic()[2]);
                    assert(bytes@.subrange(0, 4)[3] == artifact_magic()[3]);
                }
            }
        }
        return Err(DeserializeError::Malformed);
    }
    proof {
        assert(bytes@.subrange(0, 4) =~= artifact_magic());
    }
    if bytes[4] != ARTIFACT_VERSION {
        return Err(DeserializeError::Malformed);
    }
    let fp = fingerprint(c);
    let mut i: usize = 0;
    while i < FINGERPRINT_LEN
        invariant
            0 <= i <= FINGERPRINT_LEN,
            fp@ == fingerprint_spec(*c),
            fp@.len() == FINGERPRINT_LEN,
            bytes@.len() >= ARTIFACT_HEADER_LEN,
            bytes@.subrange(0, 4) == artifact_magic(),
            bytes@[4] == ARTIFACT_VERSION,
            forall|k: int| 0 <= k < i ==> bytes@[5 + k] == fp@[k],
        decreases FINGERPRINT_LEN - i,
    {
        if bytes[5 + i] != fp[i] {
            proof {
                assert(carried_fingerprint(bytes@)[i as int] != fingerprint_spec(*c)[i as int]);
                assert(carried_fingerprint(bytes@) != fingerprint_spec(*c));
                assert(header_ok(bytes@));
            }
            return Err(DeserializeError::EngineMismatch);
        }
        i += 1;
    }
    proof {
        assert(carried_fingerprint(bytes@) =~= fingerprint_spec(*c));
    }
    let mut payload: Vec<u8> = Vec::new();
    let mut j: usize = ARTIFACT_HEADER_LEN;
    while j < bytes.len()
        invariant
            ARTIFACT_HEADER_LEN <= j <= bytes@.len(),
            payload@ == bytes@.subrange(ARTIFACT_HEADER_LEN as int, j as int),
        decreases bytes@.len() - j,
    {
        let b = bytes[j];
        payload.push(b);
        proof {
            assert(payload@ =~= bytes@.subrange(ARTIFACT_HEADER_LEN as int, j + 1 as int));
        }
        j += 1;
    }
    proof {
        assert(payload@ =~= bytes@.skip(ARTIFACT_HEADER_LEN as int));
    }
    Ok(payload)
}

/// Round trip: an artifact encoded for an engine configuration decodes
/// under the same configuration to the original payload.
pub proof fn lemma_artifact_round_trip(c: HostConfig, payload: Seq<u8>)
    ensures
        decode_spec(c, artifact_bytes(c, payload)) == Ok::<Seq<u8>, DeserializeError>(payload),
{
    let b = artifact_bytes(c, payload);
    assert(fingerprint_spec(c).len() == FINGERPRINT_LEN);
    assert(b.len() == ARTIFACT_HEADER_LEN + payload.len());
    assert(b.subrange(0, 4) =~= artifact_magic());
    assert(b[4] == ARTIFACT_VERSION);
    assert(carried_fingerprint(b) =~= fingerprint_spec(c));
    assert(b.skip(ARTIFACT_HEADER_LEN as int) =~= payload);
}

/// An artifact encoded for one configuration never decodes under another:
/// the mismatch is reported, not trusted away.
pub proof fn lemma_artifact_engine_mismatch(c1: HostConfig, c2: HostConfig, payload: Seq<u8>)
    requires
        c1 != c2,
    ensures
        decode_spec(c2, artifact_bytes(c1, payload))
            == Err::<Seq<u8>, DeserializeError>(DeserializeError::EngineMismatch),
{
    let b = artifact_bytes(c1, payload);
    assert(fingerprint_spec(c1).len() == FINGERPRINT_LEN);
    assert(b.subrange(0, 4) =~= artifact_magic());
    assert(b[4] == ARTIFACT_VERSION);
    assert(carried_fingerprint(b) =~= fingerprint_spec(c1));
    if fingerprint_spec(c1) == fingerprint_spec(c2) {
        lemma_fingerprint_injective(c1, c2);
    }
}

} // verus!
