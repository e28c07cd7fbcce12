//! The Adler-32 checksum of RFC 1950, kept as a running 32-bit value.

use vstd::prelude::*;

verus! {

/// The modulus of both sums: the largest prime below 2^16.
pub const BASE: u32 = 65521;

/// The low half of a checksum value: one plus the sum of the bytes, modulo `BASE`.
pub open spec fn low(v: u32) -> int {
    v as int % 65536
}

/// The high half of a checksum value: the sum of the successive low halves, modulo `BASE`.
pub open spec fn high(v: u32) -> int {
    v as int / 65536
}

/// Both halves are below the modulus, as they are in every value that the
/// algorithm produces.
pub open spec fn reduced(v: u32) -> bool {
    low(v) < BASE && high(v) < BASE
}

/// The checksum value after one more byte.
pub open spec fn step(v: u32, byte: u8) -> u32 {
    let a = (low(v) + byte as int) % (BASE as int);
    let b = (high(v) + a) % (BASE as int);
    (b * 65536 + a) as u32
}

/// The checksum value after the bytes of `bytes`, in order, starting from `v`.
pub open spec fn fold(v: u32, bytes: Seq<u8>) -> u32
    decreases bytes.len(),
{
    if bytes.len() == 0 {
        v
    } else {
        step(fold(v, bytes.drop_last()), bytes.last())
    }
}

/// The Adler-32 checksum of a byte sequence.
pub open spec fn adler32(bytes: Seq<u8>) -> u32 {
    fold(1, bytes)
}

/// One step keeps both halves below the modulus and splits back into them.
pub proof fn lemma_step_reduced(v: u32, byte: u8)
    ensures
        reduced(step(v, byte)),
        low(step(v, byte)) == (low(v) + byte as int) % (BASE as int),
        high(step(v, byte)) == (high(v) + low(step(v, byte))) % (BASE as int),
{
    let a = (low(v) + byte as int) % (BASE as int);
    let b = (high(v) + a) % (BASE as int);
    assert(0 <= a < 65521 && 0 <= b < 65521);
    assert(0 <= b * 65536 + a < 0x1_0000_0000);
    assert((b * 65536 + a) % 65536 == a);
    assert((b * 65536 + a) / 65536 == b);
}

/// Folding keeps a reduced value reduced.
pub proof fn lemma_fold_reduced(v: u32, bytes: Seq<u8>)
    requires
        reduced(v),
    ensures
        reduced(fold(v, bytes)),
    decreases bytes.len(),
{
    if bytes.len() > 0 {
        lemma_fold_reduced(v, bytes.drop_last());
        lemma_step_reduced(fold(v, bytes.drop_last()), bytes.last());
    }
}

/// Feeding a sequence in two pieces gives the checksum of the whole: the
/// running value does not depend on where the input was cut.
pub proof fn lemma_fold_concat(v: u32, first: Seq<u8>, second: Seq<u8>)
    ensures
        fold(fold(v, first), second) == fold(v, first + second),
    decreases second.len(),
{
    if second.len() == 0 {
        assert(first + second =~= first);
    } else {
        lemma_fold_concat(v, first, second.drop_last());
        assert((first + second).drop_last() =~= first + second.drop_last());
        assert((first + second).last() == second.last());
    }
}

/// `adler32::RollingAdler32::from_value`, `update_buffer` and `hash`: the
/// context that starts from `state`, after `buf`, reports the value that
/// RFC 1950 defines. The crate sums with deferred reductions, which agree with
/// the byte-by-byte definition as long as both halves of `state` are below
/// the modulus.
#[verifier::external_body]
fn rolling_update(state: u32, buf: &[u8]) -> (r: u32)
    requires
        reduced(state),
    ensures
        r == fold(state, buf@),
{
    let mut context = adler32::RollingAdler32::from_value(state);
    context.update_buffer(buf);
    context.hash()
}

/// A running Adler-32 checksum. Its view is the value that it has reached.
#[derive(Clone, Copy)]
pub struct Adler32 {
    value: u32,
    fed: Ghost<Seq<u8>>,
}

impl View for Adler32 {
    type V = u32;

    closed spec fn view(&self) -> u32 {
        self.value
    }
}

impl Adler32 {
    #[verifier::type_invariant]
    spec fn inv(self) -> bool {
        reduced(self.value) && self.value == adler32(self.fed@)
    }

    /// Everything that was fed to the checksum, in order.
    pub closed spec fn fed(&self) -> Seq<u8> {
        self.fed@
    }

    /// The checksum of the empty sequence.
    pub fn new() -> (r: Self)
        ensures
            r@ == adler32(Seq::<u8>::empty()),
            r.fed() == Seq::<u8>::empty(),
    {
        Adler32 { value: 1, fed: Ghost(Seq::empty()) }
    }

    /// The checksum of everything fed so far.
    pub fn value(&self) -> (v: u32)
        ensures
            v == self@,
            v == adler32(self.fed()),
    {
        proof {
            use_type_invariant(self);
        }
        self.value
    }

    /// Feeds `buf`, in order, to the checksum.
    pub fn update(&mut self, buf: &[u8])
        ensures
            final(self)@ == fold(old(self)@, buf@),
            final(self).fed() == old(self).fed() + buf@,
            final(self)@ == adler32(final(self).fed()),
    {
        proof {
            use_type_invariant(&*self);
            lemma_fold_reduced(self.value, buf@);
            lemma_fold_concat(1, self.fed@, buf@);
        }
        let value = rolling_update(self.value, buf);
        *self = Adler32 { value, fed: Ghost(self.fed@ + buf@) };
    }
}

} // verus!
