//! RSA keys as plain values: the big-endian bytes of their numbers.
use vstd::prelude::*;
use crate::bytes::copy_range;

verus! {

/// The value of a big-endian byte string.
pub open spec fn be_value(s: Seq<u8>) -> nat
    decreases s.len(),
{
    if s.len() == 0 {
        0
    } else {
        be_value(s.drop_last()) * 256 + s.last() as nat
    }
}

/// The number of bytes of a big-endian byte string after its leading zeros:
/// the size in bytes of the number it holds.
pub open spec fn significant_len(s: Seq<u8>) -> nat
    decreases s.len(),
{
    if s.len() > 0 && s[0] == 0 {
        significant_len(s.drop_first())
    } else {
        s.len()
    }
}

/// Whether a modulus and a public exponent form a public key that the `rsa`
/// crate accepts for encryption: the modulus has at most 4096 bits and is
/// odd, and the exponent is odd, below the modulus and between 2 and
/// 2^33 - 1.
pub open spec fn rsa_public_ok(n: Seq<u8>, e: Seq<u8>) -> bool {
    &&& significant_len(n) <= 512
    &&& be_value(n) % 2 == 1
    &&& be_value(e) % 2 == 1
    &&& be_value(e) < be_value(n)
    &&& 2 <= be_value(e) <= 0x1_FFFF_FFFF
}

/// The model of an RSA public key.
pub struct RsaPublicView {
    pub n: Seq<u8>,
    pub e: Seq<u8>,
}

/// The model of an RSA private key.
pub struct RsaPrivateView {
    pub n: Seq<u8>,
    pub e: Seq<u8>,
    pub d: Seq<u8>,
    pub primes: Seq<Seq<u8>>,
}

/// The byte strings of a list of byte vectors.
pub open spec fn seqs_of(v: Seq<Vec<u8>>) -> Seq<Seq<u8>> {
    v.map_values(|p: Vec<u8>| p@)
}

/// An RSA public key: big-endian modulus and public exponent.
pub struct RsaPublicParts {
    pub n: Vec<u8>,
    pub e: Vec<u8>,
}

impl View for RsaPublicParts {
    type V = RsaPublicView;

    open spec fn view(&self) -> RsaPublicView {
        RsaPublicView { n: self.n@, e: self.e@ }
    }
}

/// An RSA private key: big-endian modulus, public and private exponents,
/// and at least two prime factors of the modulus.
pub struct RsaPrivateParts {
    n: Vec<u8>,
    e: Vec<u8>,
    d: Vec<u8>,
    primes: Vec<Vec<u8>>,
}

impl View for RsaPrivateParts {
    type V = RsaPrivateView;

    closed spec fn view(&self) -> RsaPrivateView {
        RsaPrivateView { n: self.n@, e: self.e@, d: self.d@, primes: seqs_of(self.primes@) }
    }
}

/// Copies a list of byte vectors.
fn copy_all(v: &Vec<Vec<u8>>) -> (out: Vec<Vec<u8>>)
    ensures
        seqs_of(out@) == seqs_of(v@),
{
    let mut out: Vec<Vec<u8>> = Vec::new();
    let mut i: usize = 0;
    while i < v.len()
        invariant
            i <= v@.len(),
            out@.len() == i,
            forall|j: int| 0 <= j < i ==> out@[j]@ == v@[j]@,
        decreases v@.len() - i,
    {
        let p = copy_range(v[i].as_slice(), 0, v[i].len());
        assert(p@ =~= v@[i as int]@);
        out.push(p);
        i = i + 1;
    }
    assert(seqs_of(out@) =~= seqs_of(v@));
    out
}

impl RsaPrivateParts {
    #[verifier::type_invariant]
    spec fn inv(&self) -> bool {
        self.primes@.len() >= 2
    }

    /// A private key from its parts; `None` when fewer than two primes are
    /// given.
    pub fn new(n: Vec<u8>, e: Vec<u8>, d: Vec<u8>, primes: Vec<Vec<u8>>) -> (k: Option<Self>)
        ensures
            k is Some <==> primes@.len() >= 2,
            k matches Some(k) ==> k@ == (RsaPrivateView {
                n: n@,
                e: e@,
                d: d@,
                primes: seqs_of(primes@),
            }),
    {
        if primes.len() < 2 {
            None
        } else {
            Some(RsaPrivateParts { n, e, d, primes })
        }
    }

    /// The modulus.
    pub fn modulus(&self) -> (n: &[u8])
        ensures
            n@ == self@.n,
    {
        self.n.as_slice()
    }

    /// The public exponent.
    pub fn public_exponent(&self) -> (e: &[u8])
        ensures
            e@ == self@.e,
    {
        self.e.as_slice()
    }

    /// The private exponent.
    pub fn private_exponent(&self) -> (d: &[u8])
        ensures
            d@ == self@.d,
    {
        self.d.as_slice()
    }

    /// The prime factors.
    pub fn primes(&self) -> (p: &Vec<Vec<u8>>)
        ensures
            seqs_of(p@) == self@.primes,
            p@.len() >= 2,
    {
        proof { use_type_invariant(self); }
        &self.primes
    }

    /// The public half of the key.
    pub fn public_parts(&self) -> (pk: RsaPublicParts)
        ensures
            pk@ == (RsaPublicView { n: self@.n, e: self@.e }),
    {
        let n = copy_range(self.n.as_slice(), 0, self.n.len());
        let e = copy_range(self.e.as_slice(), 0, self.e.len());
        assert(n@ =~= self.n@);
        assert(e@ =~= self.e@);
        RsaPublicParts { n, e }
    }

    /// A copy of the key.
    pub fn copy(&self) -> (k: Self)
        ensures
            k@ == self@,
    {
        proof { use_type_invariant(self); }
        let primes = copy_all(&self.primes);
        assert(primes@.len() == seqs_of(primes@).len());
        let n = copy_range(self.n.as_slice(), 0, self.n.len());
        let e = copy_range(self.e.as_slice(), 0, self.e.len());
        let d = copy_range(self.d.as_slice(), 0, self.d.len());
        assert(n@ =~= self.n@);
        assert(e@ =~= self.e@);
        assert(d@ =~= self.d@);
        RsaPrivateParts { n, e, d, primes }
    }
}

} // verus!
