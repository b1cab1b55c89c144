//! Field elements of the Cairo VM, held as canonical big-endian bytes.
//!
//! The replay logic never does field arithmetic: felts are compared, stored
//! and moved through VM memory. A canonical byte string (no leading zero,
//! at most 32 bytes) therefore stands for the element, and the number it
//! denotes is recovered by `be_bytes_to_nat`.

use vstd::prelude::*;
use vstd::string::StringSliceAdditionalSpecFns;

verus! {

/// The number a big-endian byte string denotes, read base 256.
pub open spec fn be_bytes_to_nat(s: Seq<u8>) -> nat
    decreases s.len(),
{
    if s.len() == 0 {
        0
    } else {
        (be_bytes_to_nat(s.drop_last()) * 256 + s.last()) as nat
    }
}

/// The same byte string without its leading zero bytes.
pub open spec fn strip_leading_zeros(s: Seq<u8>) -> Seq<u8>
    decreases s.len(),
{
    if s.len() == 0 {
        s
    } else if s[0] == 0 {
        strip_leading_zeros(s.subrange(1, s.len() as int))
    } else {
        s
    }
}

/// A field element, in canonical big-endian bytes.
#[derive(Debug)]
pub struct Felt {
    pub bytes: Vec<u8>,
}

impl View for Felt {
    type V = Seq<u8>;

    open spec fn view(&self) -> Seq<u8> {
        self.bytes@
    }
}

impl Felt {
    /// Canonical form: at most 32 bytes and no leading zero byte.
    pub open spec fn wf(&self) -> bool {
        &&& self.bytes@.len() <= 32
        &&& self.bytes@.len() > 0 ==> self.bytes@[0] != 0
    }

    /// The number this element stands for.
    pub open spec fn as_nat(&self) -> nat {
        be_bytes_to_nat(self.bytes@)
    }

    /// The zero element.
    pub fn zero() -> (r: Felt)
        ensures
            r.wf(),
            r.bytes@ =~= Seq::<u8>::empty(),
    {
        Felt { bytes: Vec::new() }
    }

    /// The element whose canonical bytes are `v` less its leading zeros.
    pub fn from_be_bytes(v: &[u8]) -> (r: Felt)
        requires
            v@.len() <= 32,
        ensures
            r.wf(),
            r.bytes@ =~= strip_leading_zeros(v@),
    {
        proof {
            assert(v@.subrange(0, v@.len() as int) =~= v@);
        }
        let mut start: usize = 0;
        while start < v.len() && v[start] == 0
            invariant
                start <= v@.len(),
                v@.len() <= 32,
                strip_leading_zeros(v@) =~= strip_leading_zeros(v@.subrange(start as int, v@.len() as int)),
            decreases v@.len() - start,
        {
            proof {
                let tail = v@.subrange(start as int, v@.len() as int);
                assert(tail[0] == 0);
                assert(tail.subrange(1, tail.len() as int)
                    =~= v@.subrange(start as int + 1, v@.len() as int));
            }
            start = start + 1;
        }
        let mut out: Vec<u8> = Vec::new();
        let mut i: usize = start;
        while i < v.len()
            invariant
                start <= i <= v@.len(),
                out@ =~= v@.subrange(start as int, i as int),
            decreases v@.len() - i,
        {
            out.push(v[i]);
            i = i + 1;
        }
        proof {
            let tail = v@.subrange(start as int, v@.len() as int);
            if tail.len() > 0 {
                assert(strip_leading_zeros(tail) =~= tail);
            }
        }
        Felt { bytes: out }
    }

    /// Equality of elements; on canonical bytes this is byte equality.
    pub fn eq_felt(&self, other: &Felt) -> (r: bool)
        ensures
            r == (self.bytes@ == other.bytes@),
    {
        if self.bytes.len() != other.bytes.len() {
            proof {
                assert(self.bytes@ != other.bytes@);
            }
            return false;
        }
        let mut i: usize = 0;
        while i < self.bytes.len()
            invariant
                i <= self.bytes@.len(),
                self.bytes@.len() == other.bytes@.len(),
                forall|j: int| 0 <= j < i ==> self.bytes@[j] == other.bytes@[j],
            decreases self.bytes@.len() - i,
        {
            if self.bytes[i] != other.bytes[i] {
                proof {
                    assert(self.bytes@[i as int] != other.bytes@[i as int]);
                }
                return false;
            }
            i = i + 1;
        }
        proof {
            assert(self.bytes@ =~= other.bytes@);
        }
        true
    }
}

/// The eight big-endian bytes of a 64-bit number.
pub open spec fn u64_be_bytes(v: u64) -> Seq<u8> {
    seq![
        (v >> 56) as u8,
        (v >> 48) as u8,
        (v >> 40) as u8,
        (v >> 32) as u8,
        (v >> 24) as u8,
        (v >> 16) as u8,
        (v >> 8) as u8,
        v as u8,
    ]
}

impl Felt {
    /// The element denoting a 64-bit number.
    pub fn from_u64(v: u64) -> (r: Felt)
        ensures
            r.wf(),
            r@ =~= strip_leading_zeros(u64_be_bytes(v)),
    {
        let mut bytes: Vec<u8> = Vec::new();
        bytes.push((v >> 56) as u8);
        bytes.push((v >> 48) as u8);
        bytes.push((v >> 40) as u8);
        bytes.push((v >> 32) as u8);
        bytes.push((v >> 24) as u8);
        bytes.push((v >> 16) as u8);
        bytes.push((v >> 8) as u8);
        bytes.push(v as u8);
        proof {
            assert(bytes@ =~= u64_be_bytes(v));
        }
        Felt::from_be_bytes(bytes.as_slice())
    }

    /// The element one, the true value of a VM flag cell.
    pub fn one() -> (r: Felt)
        ensures
            r.wf(),
            r@ =~= seq![1u8],
    {
        let mut bytes: Vec<u8> = Vec::new();
        bytes.push(1u8);
        Felt { bytes }
    }
}

/// The bytes of a name, big-endian, as a field element: the integer the
/// name's ASCII encoding spells in base 256. A name over 31 bytes does
/// not fit a field element without reduction, and an empty one has no
/// encoding; neither is accepted.
pub fn encode_str(s: &str) -> (r: Option<Felt>)
    ensures
        match r {
            Option::Some(f) => (f.wf() && f@ =~= strip_leading_zeros(s.spec_bytes()) && 0
                < s.spec_bytes().len() <= 31),
            Option::None => (s.spec_bytes().len() == 0 || s.spec_bytes().len() > 31),
        },
{
    let b = s.as_bytes();
    if b.len() == 0 || b.len() > 31 {
        return Option::None;
    }
    Option::Some(Felt::from_be_bytes(b))
}

/// The element's bytes back as a vector, to be read as a name.
pub fn decode_bytes(f: &Felt) -> (r: Vec<u8>)
    ensures
        r@ =~= f@,
{
    let mut out: Vec<u8> = Vec::new();
    let mut i: usize = 0;
    while i < f.bytes.len()
        invariant
            i <= f.bytes@.len(),
            out@ =~= f.bytes@.subrange(0, i as int),
        decreases f.bytes@.len() - i,
    {
        out.push(f.bytes[i]);
        i = i + 1;
    }
    proof {
        assert(out@ =~= f.bytes@);
    }
    out
}

/// Law: a type name encoded big-endian as a field element is decoded
/// intact. A name's first byte is never zero, so the canonical form
/// strips nothing, and for an ASCII name the bytes spell exactly the
/// name's characters.
pub proof fn lemma_encode_str_round_trip(s: &str, f: Felt)
    requires
        0 < s.spec_bytes().len() <= 31,
        s.spec_bytes()[0] != 0,
        f@ == strip_leading_zeros(s.spec_bytes()),
    ensures
        f@ == s.spec_bytes(),
        vstd::string::is_ascii(s) ==> (f@.len() == s@.len() && forall|i: int|
            0 <= i < s@.len() ==> #[trigger] f@[i] as int == s@[i] as int),
{
    assert(strip_leading_zeros(s.spec_bytes()) == s.spec_bytes());
    if vstd::string::is_ascii(s) {
        vstd::string::is_ascii_spec_bytes(s);
        assert forall|i: int| 0 <= i < s@.len() implies #[trigger] f@[i] as int == s@[i] as int by {
            assert(f@[i] == s@[i] as u8);
            assert('\0' <= s@[i] <= '\u{7f}');
        }
    }
}

impl Clone for Felt {
    fn clone(&self) -> (r: Self)
        ensures
            r@ == self@,
    {
        let mut out: Vec<u8> = Vec::new();
        let mut i: usize = 0;
        while i < self.bytes.len()
            invariant
                i <= self.bytes@.len(),
                out@ =~= self.bytes@.subrange(0, i as int),
            decreases self.bytes@.len() - i,
        {
            out.push(self.bytes[i]);
            i = i + 1;
        }
        proof {
            assert(out@ =~= self.bytes@);
        }
        let r = Felt { bytes: out };
        proof {
            assert(r.bytes@ == self.bytes@);
        }
        r
    }
}

} // verus!
