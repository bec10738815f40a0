//! Encodings of a P-256 public key: the uncompressed point that envelopes
//! carry, and the public-key blob of Windows CNG (`BCRYPT_ECCPUBLIC_BLOB`).

use vstd::prelude::*;

use crate::envelope::copy_range;

verus! {

/// First byte of an uncompressed elliptic-curve point.
pub const UNCOMPRESSED_POINT_TAG: u8 = 4;

/// Size of one P-256 coordinate.
pub const P256_COORDINATE_SIZE: usize = 32;

/// Size of an uncompressed P-256 point: the tag and two coordinates.
pub const UNCOMPRESSED_P256_SIZE: usize = 65;

/// Size of a CNG P-256 public-key blob: magic, coordinate size, two
/// coordinates.
pub const CNG_P256_PUBLIC_BLOB_SIZE: usize = 72;

/// Header of a CNG P-256 ECDH public-key blob: the magic
/// `BCRYPT_ECDH_PUBLIC_P256_MAGIC` ("ECK1") and the coordinate size 32, both
/// as little-endian 32-bit numbers.
pub open spec fn cng_p256_header() -> Seq<u8> {
    seq![0x45u8, 0x43u8, 0x4Bu8, 0x31u8, 32u8, 0u8, 0u8, 0u8]
}

/// Whether bytes are an uncompressed P-256 point.
pub open spec fn is_uncompressed_p256(point: Seq<u8>) -> bool {
    point.len() == UNCOMPRESSED_P256_SIZE && point[0] == UNCOMPRESSED_POINT_TAG
}

/// Whether bytes are a CNG P-256 ECDH public-key blob.
pub open spec fn is_cng_p256_blob(blob: Seq<u8>) -> bool {
    blob.len() == CNG_P256_PUBLIC_BLOB_SIZE && blob.subrange(0, 8) == cng_p256_header()
}

/// The uncompressed point holding a blob's coordinates.
pub open spec fn point_of_blob(blob: Seq<u8>) -> Seq<u8> {
    seq![UNCOMPRESSED_POINT_TAG] + blob.subrange(8, CNG_P256_PUBLIC_BLOB_SIZE as int)
}

/// The blob holding a point's coordinates.
pub open spec fn blob_of_point(point: Seq<u8>) -> Seq<u8> {
    cng_p256_header() + point.subrange(1, UNCOMPRESSED_P256_SIZE as int)
}

/// The uncompressed point of a CNG P-256 public-key blob; `None` where the
/// bytes are not such a blob.
pub fn point_from_cng_blob(blob: &[u8]) -> (r: Option<Vec<u8>>)
    ensures
        r is Some <==> is_cng_p256_blob(blob@),
        r matches Some(p) ==> p@ == point_of_blob(blob@),
{
    if blob.len() != CNG_P256_PUBLIC_BLOB_SIZE {
        return None;
    }
    if !(blob[0] == 0x45 && blob[1] == 0x43 && blob[2] == 0x4B && blob[3] == 0x31 && blob[4] == 32
        && blob[5] == 0 && blob[6] == 0 && blob[7] == 0) {
        proof {
            assert(blob@.subrange(0, 8) != cng_p256_header()) by {
                if blob@.subrange(0, 8) == cng_p256_header() {
                    assert(forall|i: int| 0 <= i < 8 ==> blob@[i] == blob@.subrange(0, 8)[i]);
                }
            }
        }
        return None;
    }
    assert(blob@.subrange(0, 8) =~= cng_p256_header());
    let mut point: Vec<u8> = Vec::new();
    point.push(UNCOMPRESSED_POINT_TAG);
    let coordinates = copy_range(blob, 8, CNG_P256_PUBLIC_BLOB_SIZE);
    let mut i: usize = 0;
    while i < coordinates.len()
        invariant
            coordinates@.len() == 64,
            i <= 64,
            point@ == seq![UNCOMPRESSED_POINT_TAG] + coordinates@.subrange(0, i as int),
        decreases 64 - i,
    {
        point.push(coordinates[i]);
        i = i + 1;
        assert(point@ =~= seq![UNCOMPRESSED_POINT_TAG] + coordinates@.subrange(0, i as int));
    }
    assert(coordinates@.subrange(0, 64) =~= coordinates@);
    Some(point)
}

/// The CNG P-256 public-key blob of an uncompressed point; `None` where the
/// bytes are not such a point.
pub fn cng_blob_from_point(point: &[u8]) -> (r: Option<Vec<u8>>)
    ensures
        r is Some <==> is_uncompressed_p256(point@),
        r matches Some(b) ==> b@ == blob_of_point(point@),
{
    if point.len() != UNCOMPRESSED_P256_SIZE || point[0] != UNCOMPRESSED_POINT_TAG {
        return None;
    }
    let mut blob: Vec<u8> = Vec::new();
    blob.push(0x45);
    blob.push(0x43);
    blob.push(0x4B);
    blob.push(0x31);
    blob.push(32);
    blob.push(0);
    blob.push(0);
    blob.push(0);
    assert(blob@ =~= cng_p256_header());
    let coordinates = copy_range(point, 1, UNCOMPRESSED_P256_SIZE);
    blob.extend_from_slice(coordinates.as_slice());
    Some(blob)
}

/// Converting a point to a blob and back gives the same point, and a blob to
/// a point and back gives the same blob.
pub proof fn lemma_point_blob_round_trip(point: Seq<u8>, blob: Seq<u8>)
    ensures
        is_uncompressed_p256(point) ==> is_cng_p256_blob(blob_of_point(point)) && point_of_blob(
            blob_of_point(point),
        ) == point,
        is_cng_p256_blob(blob) ==> is_uncompressed_p256(point_of_blob(blob)) && blob_of_point(
            point_of_blob(blob),
        ) == blob,
{
    if is_uncompressed_p256(point) {
        let b = blob_of_point(point);
        assert(b.subrange(0, 8) =~= cng_p256_header());
        assert(point_of_blob(b) =~= point);
    }
    if is_cng_p256_blob(blob) {
        let p = point_of_blob(blob);
        assert(blob_of_point(p) =~= blob);
    }
}

} // verus!
