use vstd::prelude::*;

verus! {

/// Number of bytes in an account address.
pub const ADDRESS_LEN: usize = 20;

/// Number of bytes in a 256-bit machine word.
pub const WORD_LEN: usize = 32;

/// A 20-byte account identifier.
#[derive(Clone, Copy, Debug)]
pub struct Address {
    pub bytes: [u8; 20],
}

/// A 256-bit word, held as 32 big-endian bytes.
#[derive(Clone, Copy, Debug)]
pub struct Word {
    pub bytes: [u8; 32],
}

impl View for Address {
    type V = Seq<u8>;

    open spec fn view(&self) -> Seq<u8> {
        self.bytes@
    }
}

impl View for Word {
    type V = Seq<u8>;

    open spec fn view(&self) -> Seq<u8> {
        self.bytes@
    }
}

/// Whether two byte slices hold the same bytes.
pub fn bytes_equal(a: &[u8], b: &[u8]) -> (r: bool)
    ensures
        r == (a@ == b@),
{
    if a.len() != b.len() {
        return false;
    }
    let mut i: usize = 0;
    while i < a.len()
        invariant
            a@.len() == b@.len(),
            i <= a@.len(),
            a@.subrange(0, i as int) == b@.subrange(0, i as int),
        decreases a@.len() - i,
    {
        if a[i] != b[i] {
            assert(a@[i as int] != b@[i as int]);
            return false;
        }
        assert(a@.subrange(0, i + 1) =~= a@.subrange(0, i as int).push(a@[i as int]));
        assert(b@.subrange(0, i + 1) =~= b@.subrange(0, i as int).push(b@[i as int]));
        i = i + 1;
    }
    assert(a@ =~= a@.subrange(0, i as int));
    assert(b@ =~= b@.subrange(0, i as int));
    true
}

/// A fresh vector holding the same bytes as `s`.
pub fn copy_bytes(s: &[u8]) -> (r: Vec<u8>)
    ensures
        r@ == s@,
{
    let mut out: Vec<u8> = Vec::with_capacity(s.len());
    let mut i: usize = 0;
    while i < s.len()
        invariant
            i <= s@.len(),
            out@ == s@.subrange(0, i as int),
        decreases s@.len() - i,
    {
        out.push(s[i]);
        assert(s@.subrange(0, i + 1) =~= s@.subrange(0, i as int).push(s@[i as int]));
        i = i + 1;
    }
    assert(s@ =~= s@.subrange(0, i as int));
    out
}

/// `n` zero bytes.
pub open spec fn zeros(n: nat) -> Seq<u8> {
    Seq::new(n, |i: int| 0u8)
}

/// An address left-padded with zeros to a full word, as the ABI lays out an `address`.
pub open spec fn padded_address(a: Seq<u8>) -> Seq<u8> {
    zeros(12) + a
}

impl Address {
    pub fn new(bytes: [u8; 20]) -> (r: Address)
        ensures
            r@ == bytes@,
    {
        Address { bytes }
    }

    /// The address made of the twenty bytes of `data` that start at `start`.
    pub fn from_slice_at(data: &[u8], start: usize) -> (r: Address)
        requires
            start + 20 <= data@.len(),
        ensures
            r@ == data@.subrange(start as int, start + 20),
    {
        let n = data.len();
        let mut bytes = [0u8; 20];
        let mut i: usize = 0;
        while i < 20
            invariant
                n == data@.len(),
                start + 20 <= n,
                i <= 20,
                bytes@.len() == 20,
                forall|j: int| 0 <= j < i ==> bytes@[j] == data@[start + j],
            decreases 20 - i,
        {
            bytes[i] = data[start + i];
            i = i + 1;
        }
        assert(bytes@ =~= data@.subrange(start as int, start + 20));
        Address { bytes }
    }

    /// Whether both addresses hold the same bytes.
    pub fn same_as(&self, other: &Address) -> (r: bool)
        ensures
            r == (self@ == other@),
    {
        bytes_equal(&self.bytes, &other.bytes)
    }

    /// The address as a 32-byte ABI word: twelve zero bytes, then the address.
    pub fn to_word_bytes(&self) -> (r: Vec<u8>)
        ensures
            r@ == padded_address(self@),
    {
        let mut out: Vec<u8> = Vec::with_capacity(32);
        let mut i: usize = 0;
        while i < 12
            invariant
                i <= 12,
                out@ == zeros(i as nat),
            decreases 12 - i,
        {
            out.push(0u8);
            assert(out@ =~= zeros((i + 1) as nat));
            i = i + 1;
        }
        let mut j: usize = 0;
        while j < 20
            invariant
                j <= 20,
                self.bytes@.len() == 20,
                out@ == zeros(12) + self@.subrange(0, j as int),
            decreases 20 - j,
        {
            out.push(self.bytes[j]);
            assert(self@.subrange(0, j + 1) =~= self@.subrange(0, j as int).push(self@[j as int]));
            assert(out@ =~= zeros(12) + self@.subrange(0, j + 1));
            j = j + 1;
        }
        assert(self@ =~= self@.subrange(0, 20));
        out
    }
}

impl Word {
    pub fn new(bytes: [u8; 32]) -> (r: Word)
        ensures
            r@ == bytes@,
    {
        Word { bytes }
    }

    /// The word whose 32 bytes are all zero.
    pub fn zero() -> (r: Word)
        ensures
            r@ == zeros(32),
    {
        let bytes = [0u8; 32];
        assert(bytes@ =~= zeros(32));
        Word { bytes }
    }

    /// Whether both words hold the same bytes.
    pub fn same_as(&self, other: &Word) -> (r: bool)
        ensures
            r == (self@ == other@),
    {
        bytes_equal(&self.bytes, &other.bytes)
    }

    /// The word's 32 big-endian bytes.
    pub fn to_bytes(&self) -> (r: Vec<u8>)
        ensures
            r@ == self@,
    {
        copy_bytes(&self.bytes)
    }
}

impl PartialEq for Address {
    fn eq(&self, other: &Address) -> (r: bool) {
        self.same_as(other)
    }
}

impl vstd::std_specs::cmp::PartialEqSpecImpl for Address {
    open spec fn obeys_eq_spec() -> bool {
        true
    }

    open spec fn eq_spec(&self, other: &Address) -> bool {
        self@ == other@
    }
}

impl PartialEq for Word {
    fn eq(&self, other: &Word) -> (r: bool) {
        self.same_as(other)
    }
}

impl vstd::std_specs::cmp::PartialEqSpecImpl for Word {
    open spec fn obeys_eq_spec() -> bool {
        true
    }

    open spec fn eq_spec(&self, other: &Word) -> bool {
        self@ == other@
    }
}

} // verus!
