use vstd::prelude::*;

verus! {

/// The one way in which deriving a value from a seed can fail.
#[derive(Debug, Clone, Copy, PartialEq, Eq, Structural)]
pub enum FlipperError {
    /// Every byte of the seed is zero, so its sum carries no information.
    ZeroSum,
}

/// The sum of a byte sequence, each byte read as an unsigned integer.
pub open spec fn byte_sum(s: Seq<u8>) -> nat
    decreases s.len(),
{
    if s.len() == 0 {
        0
    } else {
        byte_sum(s.drop_last()) + s.last() as nat
    }
}

/// The value a seed stands for: an error when its bytes sum to zero, otherwise
/// whether that sum is even.
pub open spec fn seed_value(seed: Seq<u8>) -> Result<bool, FlipperError> {
    if byte_sum(seed) == 0 {
        Err(FlipperError::ZeroSum)
    } else {
        Ok(byte_sum(seed) % 2 == 0)
    }
}

/// Derives a boolean from a seed: `true` when the sum of its bytes is even,
/// `false` when it is odd, and `ZeroSum` when it is zero.
pub fn seed_to_value(seed: [u8; 32]) -> (r: Result<bool, FlipperError>)
    ensures
        r == seed_value(seed@),
{
    let mut sum: u32 = 0;
    let mut i: usize = 0;
    while i < 32
        invariant
            i <= 32,
            seed@.len() == 32,
            sum == byte_sum(seed@.take(i as int)),
            sum <= 255 * i,
        decreases 32 - i,
    {
        assert(seed@.take(i as int + 1).drop_last() =~= seed@.take(i as int));
        sum = sum + seed[i] as u32;
        i = i + 1;
    }
    assert(seed@.take(32) =~= seed@);
    if sum == 0 {
        return Err(FlipperError::ZeroSum);
    }
    Ok(sum % 2 == 0)
}

/// A seed's bytes sum to zero exactly when every one of them is zero.
pub proof fn lemma_byte_sum_zero_iff(s: Seq<u8>)
    ensures
        byte_sum(s) == 0 <==> forall|i: int| 0 <= i < s.len() ==> s[i] == 0,
    decreases s.len(),
{
    if s.len() > 0 {
        lemma_byte_sum_zero_iff(s.drop_last());
        if byte_sum(s) == 0 {
            assert forall|i: int| 0 <= i < s.len() implies s[i] == 0 by {
                if i < s.len() - 1 {
                    assert(s[i] == s.drop_last()[i]);
                }
            }
        } else {
            if forall|i: int| 0 <= i < s.len() ==> s[i] == 0 {
                assert forall|i: int| 0 <= i < s.drop_last().len() implies s.drop_last()[i] == 0 by {
                    assert(s.drop_last()[i] == s[i]);
                }
                assert(s.last() == 0);
            }
        }
    }
}

/// A seed whose bytes are all zero is rejected with `ZeroSum`.
pub proof fn lemma_zero_seed_rejected(seed: Seq<u8>)
    requires
        seed.len() == 32,
        forall|i: int| 0 <= i < seed.len() ==> seed[i] == 0,
    ensures
        seed_value(seed) == Err::<bool, FlipperError>(FlipperError::ZeroSum),
{
    lemma_byte_sum_zero_iff(seed);
}

/// Deriving a value from a seed with a non-zero sum succeeds, and two
/// derivations from the same seed give the same value.
pub proof fn lemma_seed_value_deterministic(a: Seq<u8>, b: Seq<u8>)
    requires
        a.len() == 32,
        byte_sum(a) != 0,
        a == b,
    ensures
        seed_value(a) is Ok,
        seed_value(a) == seed_value(b),
{
}

/// What the value becomes when it is flipped.
pub open spec fn flipped(v: bool) -> bool {
    !v
}

/// Flipping twice gives back the value held before.
pub proof fn lemma_flip_twice_restores(v: bool)
    ensures
        flipped(flipped(v)) == v,
{
}

/// The notification published after the value has been changed.
#[derive(Debug, Clone, Copy, PartialEq, Eq, Structural)]
pub struct Flipped {
    /// The value reported as the previous one.
    pub old: bool,
    /// The value now held.
    pub new: bool,
}

/// The state: one boolean.
pub struct Flipper {
    value: bool,
}

impl View for Flipper {
    type V = bool;

    closed spec fn view(&self) -> bool {
        self.value
    }
}

impl Flipper {
    /// Creates a state holding `init_value`.
    pub fn new(init_value: bool) -> (r: Self)
        ensures
            r@ == init_value,
    {
        Flipper { value: init_value }
    }

    /// Creates a state holding `false`.
    pub fn new_default() -> (r: Self)
        ensures
            r@ == false,
    {
        Self::new(false)
    }

    /// Creates a state holding the value derived from `seed`, or fails with
    /// `ZeroSum` when every byte of the seed is zero.
    pub fn from_seed(seed: [u8; 32]) -> (r: Result<Self, FlipperError>)
        ensures
            match r {
                Ok(f) => seed_value(seed@) == Ok::<bool, FlipperError>(f@),
                Err(e) => seed_value(seed@) == Err::<bool, FlipperError>(e),
            },
    {
        let value = match seed_to_value(seed) {
            Ok(v) => v,
            Err(e) => return Err(e),
        };
        Ok(Flipper { value })
    }

    /// Replaces the value by the one derived from `seed` and returns it with
    /// the event to publish. Fails with `ZeroSum`, leaving the state as it
    /// was, when every byte of the seed is zero.
    ///
    /// The event's `old` field is the negation of the new value, whatever the
    /// state held before the call: observers of the event stream have always
    /// seen it so, and it is kept. A caller that needs the true previous value
    /// reads it with `get` first.
    pub fn flip_with_seed(&mut self, seed: [u8; 32]) -> (r: Result<(bool, Flipped), FlipperError>)
        ensures
            match r {
                Ok((v, ev)) => {
                    &&& seed_value(seed@) == Ok::<bool, FlipperError>(v)
                    &&& final(self)@ == v
                    &&& ev == (Flipped { old: !v, new: v })
                },
                Err(e) => {
                    &&& seed_value(seed@) == Err::<bool, FlipperError>(e)
                    &&& final(self)@ == old(self)@
                },
            },
    {
        let new_value = match seed_to_value(seed) {
            Ok(v) => v,
            Err(e) => return Err(e),
        };
        self.value = new_value;
        let event = Flipped { old: !self.value, new: new_value };
        Ok((new_value, event))
    }

    /// Negates the value and returns the event to publish, which reports the
    /// value before and after.
    pub fn flip(&mut self) -> (r: Flipped)
        ensures
            final(self)@ == flipped(old(self)@),
            r == (Flipped { old: old(self)@, new: final(self)@ }),
    {
        self.value = !self.value;
        Flipped { old: !self.value, new: self.value }
    }

    /// Returns the value held.
    pub fn get(&self) -> (r: bool)
        ensures
            r == self@,
    {
        self.value
    }
}

} // verus!
