//! Byte layout of a sealed envelope.
//!
//! ```text
//! offset 0        : u16 (big-endian)  L = length of the ephemeral public key
//! offset 2        : L bytes           ephemeral public key
//! offset 2+L      : 12 bytes          nonce
//! offset 2+L+12   : n bytes           ciphertext
//! offset end-16   : 16 bytes          authentication tag
//! ```

use vstd::prelude::*;

use crate::error::CodecError;

verus! {

/// Size of the big-endian length prefix.
pub const LEN_PREFIX_SIZE: usize = 2;

/// Size of the AES-GCM nonce.
pub const NONCE_SIZE: usize = 12;

/// Size of the AES-GCM authentication tag.
pub const TAG_SIZE: usize = 16;

/// Smallest well-formed envelope: prefix, nonce and tag, nothing else.
pub const MIN_ENVELOPE_SIZE: usize = 30;

/// Longest public key that the two-byte prefix can describe.
pub const MAX_PUBLIC_KEY_SIZE: usize = 65535;

/// The two big-endian bytes of `n`.
pub open spec fn be16(n: nat) -> Seq<u8> {
    seq![(n / 256) as u8, (n % 256) as u8]
}

/// The number that two big-endian bytes stand for.
pub open spec fn be16_value(hi: u8, lo: u8) -> nat {
    hi as nat * 256 + lo as nat
}

/// The bytes of an envelope made of these four parts.
pub open spec fn layout(
    public_key: Seq<u8>,
    nonce: Seq<u8>,
    ciphertext: Seq<u8>,
    tag: Seq<u8>,
) -> Seq<u8> {
    be16(public_key.len()) + public_key + nonce + ciphertext + tag
}

/// The public-key length that a buffer declares in its first two bytes.
pub open spec fn declared_key_len(data: Seq<u8>) -> nat
    recommends
        data.len() >= 2,
{
    be16_value(data[0], data[1])
}

/// Offset of the first ciphertext byte in a buffer.
pub open spec fn payload_start(data: Seq<u8>) -> int {
    LEN_PREFIX_SIZE + declared_key_len(data) + NONCE_SIZE
}

/// The ephemeral public key a buffer holds.
pub open spec fn key_region(data: Seq<u8>) -> Seq<u8> {
    data.subrange(LEN_PREFIX_SIZE as int, LEN_PREFIX_SIZE + declared_key_len(data))
}

/// The nonce a buffer holds.
pub open spec fn nonce_region(data: Seq<u8>) -> Seq<u8> {
    data.subrange(LEN_PREFIX_SIZE + declared_key_len(data), payload_start(data))
}

/// The ciphertext a buffer holds: what lies between the nonce and the tag.
pub open spec fn ciphertext_region(data: Seq<u8>) -> Seq<u8> {
    data.subrange(payload_start(data), data.len() - TAG_SIZE)
}

/// The authentication tag a buffer holds: its last sixteen bytes.
pub open spec fn tag_region(data: Seq<u8>) -> Seq<u8> {
    data.subrange(data.len() - TAG_SIZE, data.len() as int)
}

/// Whether a buffer has the structure of an envelope: room for the prefix,
/// the declared key, the nonce and the tag.
pub open spec fn is_well_framed(data: Seq<u8>) -> bool {
    &&& data.len() >= MIN_ENVELOPE_SIZE
    &&& data.len() >= MIN_ENVELOPE_SIZE + declared_key_len(data)
}

/// A sealed envelope taken apart.
pub struct Envelope {
    pub ephemeral_public_key: Vec<u8>,
    pub nonce: [u8; 12],
    pub ciphertext: Vec<u8>,
    pub tag: [u8; 16],
}

impl Envelope {
    /// The bytes this envelope is written as.
    pub open spec fn bytes(&self) -> Seq<u8> {
        layout(self.ephemeral_public_key@, self.nonce@, self.ciphertext@, self.tag@)
    }

    /// Whether the two-byte prefix can describe the public key.
    pub open spec fn fits(&self) -> bool {
        self.ephemeral_public_key@.len() <= MAX_PUBLIC_KEY_SIZE
    }
}

} // verus!

verus! {

/// Copies `data[start..end]` into a fresh vector.
pub(crate) fn copy_range(data: &[u8], start: usize, end: usize) -> (r: Vec<u8>)
    requires
        start <= end <= data@.len(),
    ensures
        r@ == data@.subrange(start as int, end as int),
{
    let mut r: Vec<u8> = Vec::new();
    let mut i: usize = start;
    while i < end
        invariant
            start <= i <= end <= data@.len(),
            r@ == data@.subrange(start as int, i as int),
        decreases end - i,
    {
        r.push(data[i]);
        i = i + 1;
        assert(r@ =~= data@.subrange(start as int, i as int));
    }
    r
}

impl Envelope {
    /// Writes the envelope in its byte layout.
    ///
    /// Fails with `OversizedPublicKey` exactly when the ephemeral public key is
    /// longer than the two-byte prefix can describe.
    pub fn to_bytes(&self) -> (r: Result<Vec<u8>, CodecError>)
        ensures
            self.fits() ==> r is Ok && r->Ok_0@ == self.bytes(),
            !self.fits() ==> r == Err::<Vec<u8>, CodecError>(CodecError::OversizedPublicKey),
    {
        let key_len = self.ephemeral_public_key.len();
        if key_len > MAX_PUBLIC_KEY_SIZE {
            return Err(CodecError::OversizedPublicKey);
        }
        let hi: u8 = (key_len / 256) as u8;
        let lo: u8 = (key_len % 256) as u8;
        let mut out: Vec<u8> = Vec::new();
        out.push(hi);
        out.push(lo);
        assert(out@ =~= be16(self.ephemeral_public_key@.len()));
        out.extend_from_slice(self.ephemeral_public_key.as_slice());
        out.extend_from_slice(self.nonce.as_slice());
        out.extend_from_slice(self.ciphertext.as_slice());
        out.extend_from_slice(self.tag.as_slice());
        assert(out@ =~= self.bytes());
        Ok(out)
    }

    /// Takes a byte buffer apart into an envelope.
    ///
    /// Fails with `MalformedBlob` exactly when the buffer is shorter than the
    /// fixed overhead or than the overhead plus the declared key length; no
    /// byte outside the buffer is read.
    pub fn from_bytes(data: &[u8]) -> (r: Result<Envelope, CodecError>)
        ensures
            r is Ok <==> is_well_framed(data@),
            !is_well_framed(data@) ==> r == Err::<Envelope, CodecError>(CodecError::MalformedBlob),
            r matches Ok(e) ==> {
                &&& e.bytes() == data@
                &&& e.fits()
                &&& e.ephemeral_public_key@ == key_region(data@)
                &&& e.nonce@ == nonce_region(data@)
                &&& e.ciphertext@ == ciphertext_region(data@)
                &&& e.tag@ == tag_region(data@)
            },
    {
        let n = data.len();
        if n < MIN_ENVELOPE_SIZE {
            return Err(CodecError::MalformedBlob);
        }
        let key_len: usize = (data[0] as usize) * 256 + (data[1] as usize);
        if n - MIN_ENVELOPE_SIZE < key_len {
            return Err(CodecError::MalformedBlob);
        }
        let key_end: usize = LEN_PREFIX_SIZE + key_len;
        let o: usize = key_end;
        let nonce: [u8; 12] = [
            data[o], data[o + 1], data[o + 2], data[o + 3], data[o + 4], data[o + 5],
            data[o + 6], data[o + 7], data[o + 8], data[o + 9], data[o + 10], data[o + 11],
        ];
        let ct_end: usize = n - TAG_SIZE;
        let t: usize = ct_end;
        let tag: [u8; 16] = [
            data[t], data[t + 1], data[t + 2], data[t + 3], data[t + 4], data[t + 5],
            data[t + 6], data[t + 7], data[t + 8], data[t + 9], data[t + 10], data[t + 11],
            data[t + 12], data[t + 13], data[t + 14], data[t + 15],
        ];
        let ephemeral_public_key = copy_range(data, LEN_PREFIX_SIZE, key_end);
        let ciphertext = copy_range(data, key_end + NONCE_SIZE, ct_end);
        let e = Envelope { ephemeral_public_key, nonce, ciphertext, tag };
        proof {
            assert(nonce@ =~= data@.subrange(o as int, o + 12));
            assert(tag@ =~= data@.subrange(t as int, t + 16));
            assert(be16(key_len as nat) =~= data@.subrange(0, 2));
            assert(e.bytes() =~= data@);
        }
        Ok(e)
    }
}

} // verus!

verus! {

/// Writing an envelope and reading the bytes back gives the same parts: the
/// layout is framed, and its regions are the parts that were written.
pub proof fn lemma_layout_round_trip(e: Envelope)
    requires
        e.fits(),
    ensures
        is_well_framed(e.bytes()),
        declared_key_len(e.bytes()) == e.ephemeral_public_key@.len(),
        key_region(e.bytes()) == e.ephemeral_public_key@,
        nonce_region(e.bytes()) == e.nonce@,
        ciphertext_region(e.bytes()) == e.ciphertext@,
        tag_region(e.bytes()) == e.tag@,
{
    let d = e.bytes();
    let k = e.ephemeral_public_key@;
    let l = k.len();
    assert(d[0] == (l / 256) as u8 && d[1] == (l % 256) as u8);
    assert(declared_key_len(d) == l) by (nonlinear_arith)
        requires
            l <= 65535,
            d[0] == (l / 256) as u8,
            d[1] == (l % 256) as u8,
            declared_key_len(d) == d[0] as nat * 256 + d[1] as nat,
    ;
    assert(key_region(d) =~= k);
    assert(nonce_region(d) =~= e.nonce@);
    assert(ciphertext_region(d) =~= e.ciphertext@);
    assert(tag_region(d) =~= e.tag@);
}

/// Two envelopes written as the same bytes have the same parts.
pub proof fn lemma_layout_injective(e: Envelope, f: Envelope)
    requires
        e.fits(),
        f.fits(),
        e.bytes() == f.bytes(),
    ensures
        e.ephemeral_public_key@ == f.ephemeral_public_key@,
        e.nonce@ == f.nonce@,
        e.ciphertext@ == f.ciphertext@,
        e.tag@ == f.tag@,
{
    lemma_layout_round_trip(e);
    lemma_layout_round_trip(f);
}

/// Changing one byte of the ciphertext or tag of a framed buffer (one flipped
/// bit, say) leaves it framed, with the same ephemeral key and nonce: such
/// damage always reaches authenticated decryption, which is what rejects it.
pub proof fn lemma_payload_damage_keeps_frame(data: Seq<u8>, i: int, b: u8)
    requires
        is_well_framed(data),
        payload_start(data) <= i < data.len(),
    ensures
        is_well_framed(data.update(i, b)),
        declared_key_len(data.update(i, b)) == declared_key_len(data),
        key_region(data.update(i, b)) == key_region(data),
        nonce_region(data.update(i, b)) == nonce_region(data),
        ciphertext_region(data.update(i, b)) + tag_region(data.update(i, b)) == (
        ciphertext_region(data) + tag_region(data)).update(i - payload_start(data), b),
{
    let t = data.update(i, b);
    assert(t[0] == data[0] && t[1] == data[1]);
    assert(key_region(t) =~= key_region(data));
    assert(nonce_region(t) =~= nonce_region(data));
    assert(ciphertext_region(t) + tag_region(t) =~= (ciphertext_region(data) + tag_region(
        data)).update(i - payload_start(data), b));
}

} // verus!
