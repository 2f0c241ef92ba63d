//! The behavioural flag bitfield carried by every message.

use vstd::prelude::*;

verus! {

/// The three behaviours a message can switch on, each owning one bit.
#[derive(Clone, Copy, Debug, PartialEq, Eq, Structural)]
pub enum MessageFlags {
    /// The message sends no push or desktop notification.
    SuppressNotifications,
    /// The message mentions everyone who can see the channel.
    MentionsEveryone,
    /// The message mentions everyone online who can see the channel.
    MentionsOnline,
}

impl MessageFlags {
    /// Position of the flag's bit, counted from the least significant one.
    pub open spec fn spec_bit(self) -> u32 {
        match self {
            MessageFlags::SuppressNotifications => 0,
            MessageFlags::MentionsEveryone => 1,
            MessageFlags::MentionsOnline => 2,
        }
    }

    /// Position of the flag's bit, counted from the least significant one.
    #[verifier::when_used_as_spec(spec_bit)]
    pub fn bit(self) -> (r: u32)
        ensures
            r == self.spec_bit(),
            r < 3,
    {
        match self {
            MessageFlags::SuppressNotifications => 0,
            MessageFlags::MentionsEveryone => 1,
            MessageFlags::MentionsOnline => 2,
        }
    }
}

/// Whether bit number `bit` of `raw` is one.
pub open spec fn bit_set(raw: u32, bit: u32) -> bool {
    raw & (1u32 << bit) == (1u32 << bit)
}

/// `raw` with bit number `bit` forced to `toggle`, every other bit kept.
pub open spec fn with_bit(raw: u32, bit: u32, toggle: bool) -> u32 {
    if toggle {
        raw | (1u32 << bit)
    } else {
        raw & !(1u32 << bit)
    }
}

/// A raw flag word with bit-level access.
pub struct MessageFlagsValue(pub u32);

impl MessageFlagsValue {
    /// Whether `flag` is switched on.
    pub fn has(&self, flag: MessageFlags) -> (r: bool)
        ensures
            r == bit_set(self.0, flag.spec_bit()),
    {
        self.has_value(flag.bit())
    }

    /// Whether bit number `bit` is one.
    pub fn has_value(&self, bit: u32) -> (r: bool)
        requires
            bit < 32,
        ensures
            r == bit_set(self.0, bit),
    {
        let mask: u32 = 1u32 << bit;
        self.0 & mask == mask
    }

    /// Switches `flag` on or off and hands the word back for chaining.
    pub fn set(&mut self, flag: MessageFlags, toggle: bool) -> (r: &mut Self)
        ensures
            r.0 == with_bit(old(self).0, flag.spec_bit(), toggle),
            *final(self) == *final(r),
    {
        self.set_value(flag.bit(), toggle)
    }

    /// Forces bit number `bit` to `toggle` and hands the word back for chaining.
    pub fn set_value(&mut self, bit: u32, toggle: bool) -> (r: &mut Self)
        requires
            bit < 32,
        ensures
            r.0 == with_bit(old(self).0, bit, toggle),
            *final(self) == *final(r),
    {
        if toggle {
            self.0 |= 1u32 << bit;
        } else {
            self.0 &= !(1u32 << bit);
        }
        self
    }
}

/// After a bit was forced to a value it has that value, and every other
/// bit is as it was.
pub proof fn lemma_set_then_has(raw: u32, bit: u32, toggle: bool, other: u32)
    by (bit_vector)
    requires
        bit < 32,
        other < 32,
    ensures
        bit_set(with_bit(raw, bit, toggle), other) == (if other == bit {
            toggle
        } else {
            bit_set(raw, other)
        }),
{
}

/// Bit 0 is set exactly in the odd values.
pub proof fn lemma_bit_zero_is_parity(raw: u32)
    by (bit_vector)
    ensures
        bit_set(raw, 0) <==> raw % 2 == 1,
{
}

/// A value is above 7 exactly when a bit beyond the three defined ones is
/// set, whatever the three defined bits are.
pub proof fn lemma_undefined_bits(raw: u32)
    by (bit_vector)
    ensures
        raw > 7 <==> raw & !7u32 != 0,
{
}

/// Any bit from the fourth on puts a value above 7.
pub proof fn lemma_high_bit_is_undefined(raw: u32, bit: u32)
    by (bit_vector)
    requires
        3 <= bit < 32,
        bit_set(raw, bit),
    ensures
        raw > 7,
{
}

/// A word put together from the three defined flags holds nothing else.
pub proof fn lemma_defined_bits_only(suppress: bool, everyone: bool, online: bool)
    by (bit_vector)
    ensures
        with_bit(with_bit(with_bit(0, 0, suppress), 1, everyone), 2, online) <= 7,
{
}

} // verus!
