//! Conversion of signature values to and from bytes.

use crate::error::Error;
use vstd::prelude::*;

verus! {

/// Read-only access to the bytes of an encoded signature.
pub trait SignatureBytes {
    /// The bytes held.
    spec fn bytes(&self) -> Seq<u8>;

    /// Borrows the bytes held.
    fn as_bytes(&self) -> (r: &[u8])
        ensures
            r@ == self.bytes(),
    ;
}

impl SignatureBytes for Vec<u8> {
    open spec fn bytes(&self) -> Seq<u8> {
        self@
    }

    fn as_bytes(&self) -> (r: &[u8]) {
        self.as_slice()
    }
}

impl<const N: usize> SignatureBytes for [u8; N] {
    open spec fn bytes(&self) -> Seq<u8> {
        self@
    }

    fn as_bytes(&self) -> (r: &[u8]) {
        self
    }
}

/// Whether `bytes` is the encoding of some value of signature type `S`.
pub open spec fn is_encoding<S: SignatureEncoding>(bytes: Seq<u8>) -> bool {
    exists|s: S| #[trigger] s.encoding() == bytes
}

/// What decoding `bytes` as signature type `S` gives: the value with that
/// encoding, or nothing where no value of `S` has it.
pub open spec fn decoded<S: SignatureEncoding>(bytes: Seq<u8>) -> Option<S> {
    if is_encoding::<S>(bytes) {
        Some(choose|s: S| #[trigger] s.encoding() == bytes)
    } else {
        None
    }
}

/// A signature type whose values cross byte boundaries (storage, the wire)
/// through one fixed encoding.
///
/// Two values of one signature type are the same signature exactly when
/// their encodings are equal. Decoding accepts exactly the byte strings
/// that encoding produces and rejects every other one with the opaque
/// [`Error`], without panicking on untrusted input.
pub trait SignatureEncoding: Sized + Clone {
    /// Byte representation of a signature.
    type Repr: SignatureBytes + Clone + Send + Sync + 'static;

    /// The bytes this signature encodes to.
    spec fn encoding(&self) -> Seq<u8>;

    /// Encode signature as its byte representation.
    fn to_bytes(&self) -> (r: Self::Repr)
        ensures
            r.bytes() == self.encoding(),
    ;

    /// Decode a signature from `bytes`.
    fn try_from_bytes(bytes: &[u8]) -> (r: Result<Self, Error>)
        ensures
            match r {
                Ok(s) => s.encoding() == bytes@,
                Err(_) => forall|s: Self| #[trigger] s.encoding() != bytes@,
            },
    ;

    /// Encode signature as a byte vector.
    fn to_vec(&self) -> (r: Vec<u8>)
        ensures
            r@ == self.encoding(),
    {
        let repr = self.to_bytes();
        vstd::slice::slice_to_vec(repr.as_bytes())
    }
}

/// Decoding what a signature encodes to gives back a signature with the
/// same bytes: that same signature, under byte-for-byte equality.
pub proof fn lemma_decode_encoding<S: SignatureEncoding>(s: S)
    ensures
        decoded::<S>(s.encoding()) matches Some(t) && t.encoding() == s.encoding(),
{
    assert(is_encoding::<S>(s.encoding()));
}

/// A signature that is exactly `N` bytes, with no further structure.
#[derive(Clone, Copy, Debug, PartialEq, Eq)]
pub struct FixedSignature<const N: usize> {
    bytes: [u8; N],
}

impl<const N: usize> FixedSignature<N> {
    /// A signature holding `bytes`.
    pub fn new(bytes: [u8; N]) -> (r: FixedSignature<N>)
        ensures
            r.encoding() == bytes@,
    {
        FixedSignature { bytes }
    }
}

impl<const N: usize> SignatureEncoding for FixedSignature<N> {
    type Repr = [u8; N];

    closed spec fn encoding(&self) -> Seq<u8> {
        self.bytes@
    }

    fn to_bytes(&self) -> (r: [u8; N]) {
        let r = self.bytes;
        assert(r.bytes() == self.bytes@);
        r
    }

    fn try_from_bytes(bytes: &[u8]) -> (r: Result<FixedSignature<N>, Error>) {
        if bytes.len() != N {
            proof {
                assert forall|s: FixedSignature<N>| #[trigger] s.encoding() != bytes@ by {
                    assert(s.bytes@.len() == N);
                }
            }
            return Err(Error::new());
        }
        let mut out: [u8; N] = [0u8; N];
        let mut i: usize = 0;
        while i < N
            invariant
                bytes@.len() == N,
                i <= N,
                out@.len() == N,
                forall|j: int| 0 <= j < i ==> out@[j] == bytes@[j],
            decreases N - i,
        {
            out[i] = bytes[i];
            i = i + 1;
        }
        assert(out@ =~= bytes@);
        Ok(FixedSignature { bytes: out })
    }
}

/// Two fixed-length signatures with the same encoding are equal.
pub proof fn lemma_fixed_encoding_injective<const N: usize>(a: FixedSignature<N>, b: FixedSignature<N>)
    requires
        a.encoding() == b.encoding(),
    ensures
        a == b,
{
    assert(a.bytes =~= b.bytes);
}

/// Decoding the encoding of a fixed-length signature gives back that very
/// signature.
pub proof fn lemma_fixed_round_trip<const N: usize>(s: FixedSignature<N>)
    ensures
        decoded::<FixedSignature<N>>(s.encoding()) == Some(s),
{
    lemma_decode_encoding(s);
    let t = decoded::<FixedSignature<N>>(s.encoding())->Some_0;
    lemma_fixed_encoding_injective(s, t);
}

/// An array whose first `k` bytes are those of `bytes`.
spec fn array_prefix<const N: usize>(bytes: Seq<u8>, k: nat) -> [u8; N]
    decreases k,
{
    if k == 0 {
        vstd::array::spec_array_fill_for_copy_type::<u8, N>(0)
    } else {
        vstd::array::spec_array_update(array_prefix::<N>(bytes, (k - 1) as nat), k - 1, bytes[k - 1])
    }
}

proof fn lemma_array_prefix<const N: usize>(bytes: Seq<u8>, k: nat)
    requires
        bytes.len() == N,
        k <= N,
    ensures
        forall|i: int| 0 <= i < k ==> #[trigger] array_prefix::<N>(bytes, k)@[i] == bytes[i],
    decreases k,
{
    broadcast use vstd::array::group_array_axioms;

    if k > 0 {
        let prev = array_prefix::<N>(bytes, (k - 1) as nat);
        lemma_array_prefix::<N>(bytes, (k - 1) as nat);
        assert(prev@.len() == N);
    }
}

/// The encodings of `N`-byte signatures are exactly the byte strings of
/// length `N`: decoding accepts those and rejects every other length.
pub proof fn lemma_fixed_is_encoding<const N: usize>(bytes: Seq<u8>)
    ensures
        is_encoding::<FixedSignature<N>>(bytes) <==> bytes.len() == N,
{
    if bytes.len() == N {
        lemma_array_prefix::<N>(bytes, N as nat);
        let s = FixedSignature::<N> { bytes: array_prefix::<N>(bytes, N as nat) };
        assert(s.encoding() =~= bytes);
    } else {
        assert forall|t: FixedSignature<N>| #[trigger] t.encoding() != bytes by {
            assert(t.bytes@.len() == N);
        }
    }
}

/// Bytes that encode a signature of `A` bytes are no encoding of a
/// signature of another length `B`: decoding them as such fails.
pub proof fn lemma_fixed_cross_type<const A: usize, const B: usize>(s: FixedSignature<A>)
    requires
        A != B,
    ensures
        !is_encoding::<FixedSignature<B>>(s.encoding()),
        decoded::<FixedSignature<B>>(s.encoding()) is None,
{
    assert(s.bytes@.len() == A);
    lemma_fixed_is_encoding::<B>(s.encoding());
}

} // verus!
