//! Fault flags reported by motor controllers.
use vstd::prelude::*;

use super::flags::{
    flag_set, lemma_complement_in_mask, lemma_flag_set_masks, lemma_flag_set_ops, lemma_flag_set_single,
    lemma_flag_set_subset, lemma_flag_set_zero, lemma_holds_mask, lemma_union_bits_flags,
    lemma_union_bits_step, lemma_within_mask, union_bits, flags_text, flags_text_of,
};

verus! {

/// All the faults available to motor controllers.
///
/// A value holds the raw fault bits that the device reports; the named flags
/// are the bits this library knows. `flags()` is the set of the positions of
/// the bits that are set.
#[derive(Debug, Copy, Clone, PartialEq, Eq, PartialOrd, Ord, Hash)]
pub struct Faults {
    bits: i32,
}

impl View for Faults {
    type V = i32;

    /// The raw bits.
    closed spec fn view(&self) -> i32 {
        self.bits
    }
}

impl Faults {
    /// The bits of every flag that this type names.
    pub open spec fn spec_all_bits() -> i32 {
        0xFFFi32
    }

    /// The positions of every flag that this type names.
    pub open spec fn spec_all_flags() -> Set<u32> {
        Set::new(|i: u32| i < 12)
    }

    /// The positions of the bits that are set.
    pub open spec fn flags(self) -> Set<u32> {
        flag_set(self@)
    }

    /// Motor controller is under 6.5V.
    #[allow(non_snake_case)]
    pub fn UNDER_VOLTAGE() -> (r: Self)
        ensures
            r@ == 1i32 << 0u32,
            r.flags() == set![0u32],
    {
        proof {
            lemma_flag_set_single(0u32);
        }
        Faults { bits: 1i32 << 0u32 }
    }

    /// Forward limit switch is tripped and the device is trying to go forward; only trips when the device is limited.
    #[allow(non_snake_case)]
    pub fn FORWARD_LIMIT_SWITCH() -> (r: Self)
        ensures
            r@ == 1i32 << 1u32,
            r.flags() == set![1u32],
    {
        proof {
            lemma_flag_set_single(1u32);
        }
        Faults { bits: 1i32 << 1u32 }
    }

    /// Reverse limit switch is tripped and the device is trying to go reverse; only trips when the device is limited.
    #[allow(non_snake_case)]
    pub fn REVERSE_LIMIT_SWITCH() -> (r: Self)
        ensures
            r@ == 1i32 << 2u32,
            r.flags() == set![2u32],
    {
        proof {
            lemma_flag_set_single(2u32);
        }
        Faults { bits: 1i32 << 2u32 }
    }

    /// Sensor is beyond the forward soft limit and the device is trying to go forward; only trips when the device is limited.
    #[allow(non_snake_case)]
    pub fn FORWARD_SOFT_LIMIT() -> (r: Self)
        ensures
            r@ == 1i32 << 3u32,
            r.flags() == set![3u32],
    {
        proof {
            lemma_flag_set_single(3u32);
        }
        Faults { bits: 1i32 << 3u32 }
    }

    /// Sensor is beyond the reverse soft limit and the device is trying to go reverse; only trips when the device is limited.
    #[allow(non_snake_case)]
    pub fn REVERSE_SOFT_LIMIT() -> (r: Self)
        ensures
            r@ == 1i32 << 4u32,
            r.flags() == set![4u32],
    {
        proof {
            lemma_flag_set_single(4u32);
        }
        Faults { bits: 1i32 << 4u32 }
    }

    /// Device detects a hardware failure.
    #[allow(non_snake_case)]
    pub fn HARDWARE_FAILURE() -> (r: Self)
        ensures
            r@ == 1i32 << 5u32,
            r.flags() == set![5u32],
    {
        proof {
            lemma_flag_set_single(5u32);
        }
        Faults { bits: 1i32 << 5u32 }
    }

    /// Device was powered on or reset while the robot was enabled; check breakers and wiring.
    #[allow(non_snake_case)]
    pub fn RESET_DURING_EN() -> (r: Self)
        ensures
            r@ == 1i32 << 6u32,
            r.flags() == set![6u32],
    {
        proof {
            lemma_flag_set_single(6u32);
        }
        Faults { bits: 1i32 << 6u32 }
    }

    /// Device's sensor overflowed.
    #[allow(non_snake_case)]
    pub fn SENSOR_OVERFLOW() -> (r: Self)
        ensures
            r@ == 1i32 << 7u32,
            r.flags() == set![7u32],
    {
        proof {
            lemma_flag_set_single(7u32);
        }
        Faults { bits: 1i32 << 7u32 }
    }

    /// Device detects that its sensor is out of phase.
    #[allow(non_snake_case)]
    pub fn SENSOR_OUT_OF_PHASE() -> (r: Self)
        ensures
            r@ == 1i32 << 8u32,
            r.flags() == set![8u32],
    {
        proof {
            lemma_flag_set_single(8u32);
        }
        Faults { bits: 1i32 << 8u32 }
    }

    /// Not used, see `RESET_DURING_EN`.
    #[allow(non_snake_case)]
    pub fn HARDWARE_ESD_RESET() -> (r: Self)
        ensures
            r@ == 1i32 << 9u32,
            r.flags() == set![9u32],
    {
        proof {
            lemma_flag_set_single(9u32);
        }
        Faults { bits: 1i32 << 9u32 }
    }

    /// Remote sensor is no longer detected on the bus.
    #[allow(non_snake_case)]
    pub fn REMOTE_LOSS_OF_SIGNAL() -> (r: Self)
        ensures
            r@ == 1i32 << 10u32,
            r.flags() == set![10u32],
    {
        proof {
            lemma_flag_set_single(10u32);
        }
        Faults { bits: 1i32 << 10u32 }
    }

    /// API error detected; make sure API and firmware versions are compatible.
    #[allow(non_snake_case)]
    pub fn API_ERROR() -> (r: Self)
        ensures
            r@ == 1i32 << 11u32,
            r.flags() == set![11u32],
    {
        proof {
            lemma_flag_set_single(11u32);
        }
        Faults { bits: 1i32 << 11u32 }
    }

    /// Returns an empty set of flags.
    pub fn empty() -> (r: Self)
        ensures
            r@ == 0i32,
            r.flags() == Set::<u32>::empty(),
    {
        proof {
            lemma_flag_set_zero(0i32);
        }
        Faults { bits: 0 }
    }

    /// Returns the set containing all flags.
    pub fn all() -> (r: Self)
        ensures
            r@ == Self::spec_all_bits(),
            r.flags() == Self::spec_all_flags(),
    {
        proof {
            lemma_flag_set_masks();
        }
        Faults { bits: 0xFFFi32 }
    }

    /// Returns the raw value of the flags currently stored.
    pub fn bits(&self) -> (r: i32)
        ensures
            r == self@,
    {
        self.bits
    }

    /// Converts from the underlying bit representation, unless that
    /// representation contains bits that do not correspond to a flag.
    pub fn from_bits(bits: i32) -> (r: Option<Self>)
        ensures
            r.is_some() <==> (bits & !Self::spec_all_bits()) == 0i32,
            r.is_some() <==> flag_set(bits).subset_of(Self::spec_all_flags()),
            r matches Some(f) ==> f@ == bits,
    {
        proof {
            lemma_flag_set_masks();
            lemma_within_mask(bits, 0xFFFi32);
        }
        if (bits & !0xFFFi32) == 0 {
            Some(Faults { bits })
        } else {
            None
        }
    }

    /// Converts from the underlying bit representation, dropping any bits
    /// that do not correspond to flags.
    pub fn from_bits_truncate(bits: i32) -> (r: Self)
        ensures
            r@ == bits & Self::spec_all_bits(),
            r.flags() == flag_set(bits).intersect(Self::spec_all_flags()),
    {
        proof {
            lemma_flag_set_masks();
            lemma_flag_set_ops(bits, 0xFFFi32);
        }
        Faults { bits: bits & 0xFFFi32 }
    }

    /// Converts from the underlying bit representation, keeping every bit,
    /// also those that correspond to no flag (as the device reports them).
    pub fn from_bits_retain(bits: i32) -> (r: Self)
        ensures
            r@ == bits,
            r.flags() == flag_set(bits),
    {
        Faults { bits }
    }

    /// Returns `true` if no flags are currently stored.
    pub fn is_empty(&self) -> (r: bool)
        ensures
            r == (self@ == 0i32),
            r == self.flags().is_empty(),
    {
        proof {
            lemma_flag_set_zero(self@);
        }
        self.bits == 0
    }

    /// Returns `true` if all flags are currently set.
    pub fn is_all(&self) -> (r: bool)
        ensures
            r == ((Self::spec_all_bits() | self@) == self@),
            r == Self::spec_all_flags().subset_of(self.flags()),
    {
        proof {
            lemma_flag_set_masks();
            lemma_holds_mask(self@, 0xFFFi32);
        }
        (0xFFFi32 | self.bits) == self.bits
    }

    /// Returns `true` if there are flags common to both `self` and `other`.
    pub fn intersects(&self, other: Self) -> (r: bool)
        ensures
            r == ((self@ & other@) != 0i32),
            r == !self.flags().disjoint(other.flags()),
    {
        proof {
            lemma_flag_set_subset(self@, other@);
        }
        (self.bits & other.bits) != 0
    }

    /// Returns `true` if all of the flags in `other` are contained within `self`.
    pub fn contains(&self, other: Self) -> (r: bool)
        ensures
            r == ((self@ & other@) == other@),
            r == other.flags().subset_of(self.flags()),
    {
        proof {
            lemma_flag_set_subset(self@, other@);
        }
        (self.bits & other.bits) == other.bits
    }

    /// Inserts the specified flags in-place.
    pub fn insert(&mut self, other: Self)
        ensures
            final(self)@ == old(self)@ | other@,
            final(self).flags() == old(self).flags().union(other.flags()),
    {
        proof {
            lemma_flag_set_ops(self@, other@);
        }
        self.bits = self.bits | other.bits;
    }

    /// Removes the specified flags in-place.
    pub fn remove(&mut self, other: Self)
        ensures
            final(self)@ == old(self)@ & !other@,
            final(self).flags() == old(self).flags().difference(other.flags()),
    {
        proof {
            lemma_flag_set_ops(self@, other@);
        }
        self.bits = self.bits & !other.bits;
    }

    /// Toggles the specified flags in-place.
    pub fn toggle(&mut self, other: Self)
        ensures
            final(self)@ == old(self)@ ^ other@,
            final(self).flags() == old(self).flags().difference(other.flags()).union(
                other.flags().difference(old(self).flags()),
            ),
    {
        proof {
            lemma_flag_set_ops(self@, other@);
        }
        self.bits = self.bits ^ other.bits;
    }

    /// Inserts or removes the specified flags depending on the passed value.
    pub fn set(&mut self, other: Self, value: bool)
        ensures
            final(self)@ == (if value { old(self)@ | other@ } else { old(self)@ & !other@ }),
            final(self).flags() == (if value {
                old(self).flags().union(other.flags())
            } else {
                old(self).flags().difference(other.flags())
            }),
    {
        if value {
            self.insert(other);
        } else {
            self.remove(other);
        }
    }

    /// Returns the flags present in both `self` and `other`.
    pub fn intersection(self, other: Self) -> (r: Self)
        ensures
            r@ == self@ & other@,
            r.flags() == self.flags().intersect(other.flags()),
    {
        proof {
            lemma_flag_set_ops(self@, other@);
        }
        Faults { bits: self.bits & other.bits }
    }

    /// Returns the flags present in either `self` or `other`.
    pub fn union(self, other: Self) -> (r: Self)
        ensures
            r@ == self@ | other@,
            r.flags() == self.flags().union(other.flags()),
    {
        proof {
            lemma_flag_set_ops(self@, other@);
        }
        Faults { bits: self.bits | other.bits }
    }

    /// Returns the flags present in `self` but not in `other`.
    pub fn difference(self, other: Self) -> (r: Self)
        ensures
            r@ == self@ & !other@,
            r.flags() == self.flags().difference(other.flags()),
    {
        proof {
            lemma_flag_set_ops(self@, other@);
        }
        Faults { bits: self.bits & !other.bits }
    }

    /// Returns the flags present in exactly one of `self` and `other`.
    pub fn symmetric_difference(self, other: Self) -> (r: Self)
        ensures
            r@ == self@ ^ other@,
            r.flags() == self.flags().difference(other.flags()).union(other.flags().difference(self.flags())),
    {
        proof {
            lemma_flag_set_ops(self@, other@);
        }
        Faults { bits: self.bits ^ other.bits }
    }

    /// Returns the flags that this type names and that are not set in `self`.
    pub fn complement(self) -> (r: Self)
        ensures
            r@ == !self@ & Self::spec_all_bits(),
            r.flags() == Self::spec_all_flags().difference(self.flags()),
    {
        proof {
            lemma_flag_set_masks();
            lemma_complement_in_mask(self@, 0xFFFi32);
        }
        Self::from_bits_truncate(!self.bits)
    }

    /// The union of all of `flags` (what collecting them gives).
    pub fn union_all(flags: &[Self]) -> (r: Self)
        ensures
            r@ == union_bits(flags@.map_values(|f: Self| f@)),
            forall|i: u32| #[trigger] r.flags().contains(i) <==> exists|j: int| 0 <= j < flags@.len() && #[trigger] flags@[j].flags().contains(i),
    {
        let ghost m = flags@.map_values(|f: Self| f@);
        let mut bits: i32 = 0;
        let mut n: usize = 0;
        while n < flags.len()
            invariant
                n <= flags.len(),
                m == flags@.map_values(|f: Self| f@),
                bits == union_bits(m.take(n as int)),
            decreases flags.len() - n,
        {
            proof {
                lemma_union_bits_step(m, n as int);
                assert(m.take(0) =~= Seq::<i32>::empty());
            }
            bits = bits | flags[n].bits;
            n = n + 1;
        }
        proof {
            if flags.len() == 0 {
                assert(m.take(0) =~= Seq::<i32>::empty());
            } else {
                lemma_union_bits_step(m, 0);
            }
            assert forall|i: u32| #[trigger] flag_set(bits).contains(i) <==> exists|j: int| 0 <= j < flags@.len() && #[trigger] flags@[j].flags().contains(i) by {
                lemma_union_bits_flags(m, i);
                if flag_set(bits).contains(i) {
                    let j = choose|j: int| 0 <= j < m.len() && #[trigger] flag_set(m[j]).contains(i);
                    assert(flags@[j].flags().contains(i));
                }
                if exists|j: int| 0 <= j < flags@.len() && #[trigger] flags@[j].flags().contains(i) {
                    let j = choose|j: int| 0 <= j < flags@.len() && #[trigger] flags@[j].flags().contains(i);
                    assert(flag_set(m[j]).contains(i));
                }
            }
        }
        Faults { bits }
    }

    /// Inserts each of `flags` in turn.
    pub fn extend(&mut self, flags: &[Self])
        ensures
            final(self)@ == old(self)@ | union_bits(flags@.map_values(|f: Self| f@)),
            forall|i: u32| #[trigger] final(self).flags().contains(i) <==> (old(self).flags().contains(i) || exists|j: int| 0 <= j < flags@.len() && #[trigger] flags@[j].flags().contains(i)),
    {
        let all = Self::union_all(flags);
        self.insert(all);
    }

    /// The names of the flags, in the order of their bits.
    pub open spec fn spec_flag_names() -> Seq<Seq<char>> {
        seq![
            "UNDER_VOLTAGE"@,
            "FORWARD_LIMIT_SWITCH"@,
            "REVERSE_LIMIT_SWITCH"@,
            "FORWARD_SOFT_LIMIT"@,
            "REVERSE_SOFT_LIMIT"@,
            "HARDWARE_FAILURE"@,
            "RESET_DURING_EN"@,
            "SENSOR_OVERFLOW"@,
            "SENSOR_OUT_OF_PHASE"@,
            "HARDWARE_ESD_RESET"@,
            "REMOTE_LOSS_OF_SIGNAL"@,
            "API_ERROR"@,
        ]
    }

    /// The text that lists the flags that are set, in the form that `Debug`
    /// gives flags made with `bitflags`: the names joined by `" | "`, then
    /// any bits that no flag names in hexadecimal after `0x`, or `(empty)`.
    pub fn debug_string(&self) -> (r: String)
        ensures
            r@ == flags_text(self@, Self::spec_flag_names(), Self::spec_all_bits()),
    {
        let mut names: Vec<&str> = Vec::new();
        names.push("UNDER_VOLTAGE");
        names.push("FORWARD_LIMIT_SWITCH");
        names.push("REVERSE_LIMIT_SWITCH");
        names.push("FORWARD_SOFT_LIMIT");
        names.push("REVERSE_SOFT_LIMIT");
        names.push("HARDWARE_FAILURE");
        names.push("RESET_DURING_EN");
        names.push("SENSOR_OVERFLOW");
        names.push("SENSOR_OUT_OF_PHASE");
        names.push("HARDWARE_ESD_RESET");
        names.push("REMOTE_LOSS_OF_SIGNAL");
        names.push("API_ERROR");
        proof {
            assert(names@.map_values(|n: &str| n@) =~= Self::spec_flag_names());
        }
        flags_text_of(self.bits, names.as_slice(), 0xFFFi32)
    }
}

impl Faults {
    /// The flags with exactly the given bits.
    pub closed spec fn spec_with_bits(bits: i32) -> Self {
        Faults { bits }
    }

    /// The flags with given bits have those bits, and flags are equal
    /// exactly when their bits are.
    pub proof fn lemma_with_bits(bits: i32, f: Self, g: Self)
        ensures
            Self::spec_with_bits(bits)@ == bits,
            Self::spec_with_bits(f@) == f,
            (f@ == g@) == (f == g),
    {
    }
}

impl core::ops::BitOr for Faults {
    type Output = Faults;

    /// The union of the two sets of flags.
    fn bitor(self, rhs: Faults) -> (r: Faults) {
        Faults { bits: self.bits | rhs.bits }
    }
}

impl vstd::std_specs::ops::BitOrSpecImpl for Faults {
    open spec fn obeys_bitor_spec() -> bool {
        true
    }

    open spec fn bitor_req(self, rhs: Faults) -> bool {
        true
    }

    open spec fn bitor_spec(self, rhs: Faults) -> Faults {
        Faults::spec_with_bits(self@ | rhs@)
    }
}

impl core::ops::BitOrAssign for Faults {
    /// Replaces the flags with their union with `rhs`.
    fn bitor_assign(&mut self, rhs: Faults)
        ensures
            final(self)@ == old(self)@ | rhs@,
    {
        self.bits = self.bits | rhs.bits;
    }
}

impl core::ops::BitAnd for Faults {
    type Output = Faults;

    /// The intersection of the two sets of flags.
    fn bitand(self, rhs: Faults) -> (r: Faults) {
        Faults { bits: self.bits & rhs.bits }
    }
}

impl vstd::std_specs::ops::BitAndSpecImpl for Faults {
    open spec fn obeys_bitand_spec() -> bool {
        true
    }

    open spec fn bitand_req(self, rhs: Faults) -> bool {
        true
    }

    open spec fn bitand_spec(self, rhs: Faults) -> Faults {
        Faults::spec_with_bits(self@ & rhs@)
    }
}

impl core::ops::BitAndAssign for Faults {
    /// Replaces the flags with their intersection with `rhs`.
    fn bitand_assign(&mut self, rhs: Faults)
        ensures
            final(self)@ == old(self)@ & rhs@,
    {
        self.bits = self.bits & rhs.bits;
    }
}

impl core::ops::BitXor for Faults {
    type Output = Faults;

    /// The symmetric difference of the two sets of flags.
    fn bitxor(self, rhs: Faults) -> (r: Faults) {
        Faults { bits: self.bits ^ rhs.bits }
    }
}

impl vstd::std_specs::ops::BitXorSpecImpl for Faults {
    open spec fn obeys_bitxor_spec() -> bool {
        true
    }

    open spec fn bitxor_req(self, rhs: Faults) -> bool {
        true
    }

    open spec fn bitxor_spec(self, rhs: Faults) -> Faults {
        Faults::spec_with_bits(self@ ^ rhs@)
    }
}

impl core::ops::BitXorAssign for Faults {
    /// Replaces the flags with their symmetric difference with `rhs`.
    fn bitxor_assign(&mut self, rhs: Faults)
        ensures
            final(self)@ == old(self)@ ^ rhs@,
    {
        self.bits = self.bits ^ rhs.bits;
    }
}

impl core::ops::Sub for Faults {
    type Output = Faults;

    /// The difference of the two sets of flags.
    fn sub(self, rhs: Faults) -> (r: Faults) {
        Faults { bits: self.bits & !rhs.bits }
    }
}

impl vstd::std_specs::ops::SubSpecImpl for Faults {
    open spec fn obeys_sub_spec() -> bool {
        true
    }

    open spec fn sub_req(self, rhs: Faults) -> bool {
        true
    }

    open spec fn sub_spec(self, rhs: Faults) -> Faults {
        Faults::spec_with_bits(self@ & !rhs@)
    }
}

impl core::ops::SubAssign for Faults {
    /// Replaces the flags with their difference with `rhs`.
    fn sub_assign(&mut self, rhs: Faults)
        ensures
            final(self)@ == old(self)@ & !rhs@,
    {
        self.bits = self.bits & !rhs.bits;
    }
}

impl core::ops::Not for Faults {
    type Output = Faults;

    /// The complement: the named flags that are not set.
    fn not(self) -> (r: Faults) {
        Faults { bits: !self.bits & 0xFFFi32 }
    }
}

impl vstd::std_specs::ops::NotSpecImpl for Faults {
    open spec fn obeys_not_spec() -> bool {
        true
    }

    open spec fn not_req(self) -> bool {
        true
    }

    open spec fn not_spec(self) -> Faults {
        Faults::spec_with_bits(!self@ & Self::spec_all_bits())
    }
}

/// All the sticky faults available to motor controllers.
///
/// A value holds the raw fault bits that the device reports; the named flags
/// are the bits this library knows. `flags()` is the set of the positions of
/// the bits that are set.
#[derive(Debug, Copy, Clone, PartialEq, Eq, PartialOrd, Ord, Hash)]
pub struct StickyFaults {
    bits: i32,
}

impl View for StickyFaults {
    type V = i32;

    /// The raw bits.
    closed spec fn view(&self) -> i32 {
        self.bits
    }
}

impl StickyFaults {
    /// The bits of every flag that this type names.
    pub open spec fn spec_all_bits() -> i32 {
        0x7FFi32
    }

    /// The positions of every flag that this type names.
    pub open spec fn spec_all_flags() -> Set<u32> {
        Set::new(|i: u32| i < 11)
    }

    /// The positions of the bits that are set.
    pub open spec fn flags(self) -> Set<u32> {
        flag_set(self@)
    }

    /// Motor controller is under 6.5V.
    #[allow(non_snake_case)]
    pub fn UNDER_VOLTAGE() -> (r: Self)
        ensures
            r@ == 1i32 << 0u32,
            r.flags() == set![0u32],
    {
        proof {
            lemma_flag_set_single(0u32);
        }
        StickyFaults { bits: 1i32 << 0u32 }
    }

    /// Forward limit switch is tripped and the device is trying to go forward; only trips when the device is limited.
    #[allow(non_snake_case)]
    pub fn FORWARD_LIMIT_SWITCH() -> (r: Self)
        ensures
            r@ == 1i32 << 1u32,
            r.flags() == set![1u32],
    {
        proof {
            lemma_flag_set_single(1u32);
        }
        StickyFaults { bits: 1i32 << 1u32 }
    }

    /// Reverse limit switch is tripped and the device is trying to go reverse; only trips when the device is limited.
    #[allow(non_snake_case)]
    pub fn REVERSE_LIMIT_SWITCH() -> (r: Self)
        ensures
            r@ == 1i32 << 2u32,
            r.flags() == set![2u32],
    {
        proof {
            lemma_flag_set_single(2u32);
        }
        StickyFaults { bits: 1i32 << 2u32 }
    }

    /// Sensor is beyond the forward soft limit and the device is trying to go forward; only trips when the device is limited.
    #[allow(non_snake_case)]
    pub fn FORWARD_SOFT_LIMIT() -> (r: Self)
        ensures
            r@ == 1i32 << 3u32,
            r.flags() == set![3u32],
    {
        proof {
            lemma_flag_set_single(3u32);
        }
        StickyFaults { bits: 1i32 << 3u32 }
    }

    /// Sensor is beyond the reverse soft limit and the device is trying to go reverse; only trips when the device is limited.
    #[allow(non_snake_case)]
    pub fn REVERSE_SOFT_LIMIT() -> (r: Self)
        ensures
            r@ == 1i32 << 4u32,
            r.flags() == set![4u32],
    {
        proof {
            lemma_flag_set_single(4u32);
        }
        StickyFaults { bits: 1i32 << 4u32 }
    }

    /// Device was powered on or reset while the robot was enabled; check breakers and wiring.
    #[allow(non_snake_case)]
    pub fn RESET_DURING_EN() -> (r: Self)
        ensures
            r@ == 1i32 << 5u32,
            r.flags() == set![5u32],
    {
        proof {
            lemma_flag_set_single(5u32);
        }
        StickyFaults { bits: 1i32 << 5u32 }
    }

    /// Device's sensor overflowed.
    #[allow(non_snake_case)]
    pub fn SENSOR_OVERFLOW() -> (r: Self)
        ensures
            r@ == 1i32 << 6u32,
            r.flags() == set![6u32],
    {
        proof {
            lemma_flag_set_single(6u32);
        }
        StickyFaults { bits: 1i32 << 6u32 }
    }

    /// Device detects that its sensor is out of phase.
    #[allow(non_snake_case)]
    pub fn SENSOR_OUT_OF_PHASE() -> (r: Self)
        ensures
            r@ == 1i32 << 7u32,
            r.flags() == set![7u32],
    {
        proof {
            lemma_flag_set_single(7u32);
        }
        StickyFaults { bits: 1i32 << 7u32 }
    }

    /// Not used, see `RESET_DURING_EN`.
    #[allow(non_snake_case)]
    pub fn HARDWARE_ESD_RESET() -> (r: Self)
        ensures
            r@ == 1i32 << 8u32,
            r.flags() == set![8u32],
    {
        proof {
            lemma_flag_set_single(8u32);
        }
        StickyFaults { bits: 1i32 << 8u32 }
    }

    /// Remote sensor is no longer detected on the bus.
    #[allow(non_snake_case)]
    pub fn REMOTE_LOSS_OF_SIGNAL() -> (r: Self)
        ensures
            r@ == 1i32 << 9u32,
            r.flags() == set![9u32],
    {
        proof {
            lemma_flag_set_single(9u32);
        }
        StickyFaults { bits: 1i32 << 9u32 }
    }

    /// Device detects an API error.
    #[allow(non_snake_case)]
    pub fn API_ERROR() -> (r: Self)
        ensures
            r@ == 1i32 << 10u32,
            r.flags() == set![10u32],
    {
        proof {
            lemma_flag_set_single(10u32);
        }
        StickyFaults { bits: 1i32 << 10u32 }
    }

    /// Returns an empty set of flags.
    pub fn empty() -> (r: Self)
        ensures
            r@ == 0i32,
            r.flags() == Set::<u32>::empty(),
    {
        proof {
            lemma_flag_set_zero(0i32);
        }
        StickyFaults { bits: 0 }
    }

    /// Returns the set containing all flags.
    pub fn all() -> (r: Self)
        ensures
            r@ == Self::spec_all_bits(),
            r.flags() == Self::spec_all_flags(),
    {
        proof {
            lemma_flag_set_masks();
        }
        StickyFaults { bits: 0x7FFi32 }
    }

    /// Returns the raw value of the flags currently stored.
    pub fn bits(&self) -> (r: i32)
        ensures
            r == self@,
    {
        self.bits
    }

    /// Converts from the underlying bit representation, unless that
    /// representation contains bits that do not correspond to a flag.
    pub fn from_bits(bits: i32) -> (r: Option<Self>)
        ensures
            r.is_some() <==> (bits & !Self::spec_all_bits()) == 0i32,
            r.is_some() <==> flag_set(bits).subset_of(Self::spec_all_flags()),
            r matches Some(f) ==> f@ == bits,
    {
        proof {
            lemma_flag_set_masks();
            lemma_within_mask(bits, 0x7FFi32);
        }
        if (bits & !0x7FFi32) == 0 {
            Some(StickyFaults { bits })
        } else {
            None
        }
    }

    /// Converts from the underlying bit representation, dropping any bits
    /// that do not correspond to flags.
    pub fn from_bits_truncate(bits: i32) -> (r: Self)
        ensures
            r@ == bits & Self::spec_all_bits(),
            r.flags() == flag_set(bits).intersect(Self::spec_all_flags()),
    {
        proof {
            lemma_flag_set_masks();
            lemma_flag_set_ops(bits, 0x7FFi32);
        }
        StickyFaults { bits: bits & 0x7FFi32 }
    }

    /// Converts from the underlying bit representation, keeping every bit,
    /// also those that correspond to no flag (as the device reports them).
    pub fn from_bits_retain(bits: i32) -> (r: Self)
        ensures
            r@ == bits,
            r.flags() == flag_set(bits),
    {
        StickyFaults { bits }
    }

    /// Returns `true` if no flags are currently stored.
    pub fn is_empty(&self) -> (r: bool)
        ensures
            r == (self@ == 0i32),
            r == self.flags().is_empty(),
    {
        proof {
            lemma_flag_set_zero(self@);
        }
        self.bits == 0
    }

    /// Returns `true` if all flags are currently set.
    pub fn is_all(&self) -> (r: bool)
        ensures
            r == ((Self::spec_all_bits() | self@) == self@),
            r == Self::spec_all_flags().subset_of(self.flags()),
    {
        proof {
            lemma_flag_set_masks();
            lemma_holds_mask(self@, 0x7FFi32);
        }
        (0x7FFi32 | self.bits) == self.bits
    }

    /// Returns `true` if there are flags common to both `self` and `other`.
    pub fn intersects(&self, other: Self) -> (r: bool)
        ensures
            r == ((self@ & other@) != 0i32),
            r == !self.flags().disjoint(other.flags()),
    {
        proof {
            lemma_flag_set_subset(self@, other@);
        }
        (self.bits & other.bits) != 0
    }

    /// Returns `true` if all of the flags in `other` are contained within `self`.
    pub fn contains(&self, other: Self) -> (r: bool)
        ensures
            r == ((self@ & other@) == other@),
            r == other.flags().subset_of(self.flags()),
    {
        proof {
            lemma_flag_set_subset(self@, other@);
        }
        (self.bits & other.bits) == other.bits
    }

    /// Inserts the specified flags in-place.
    pub fn insert(&mut self, other: Self)
        ensures
            final(self)@ == old(self)@ | other@,
            final(self).flags() == old(self).flags().union(other.flags()),
    {
        proof {
            lemma_flag_set_ops(self@, other@);
        }
        self.bits = self.bits | other.bits;
    }

    /// Removes the specified flags in-place.
    pub fn remove(&mut self, other: Self)
        ensures
            final(self)@ == old(self)@ & !other@,
            final(self).flags() == old(self).flags().difference(other.flags()),
    {
        proof {
            lemma_flag_set_ops(self@, other@);
        }
        self.bits = self.bits & !other.bits;
    }

    /// Toggles the specified flags in-place.
    pub fn toggle(&mut self, other: Self)
        ensures
            final(self)@ == old(self)@ ^ other@,
            final(self).flags() == old(self).flags().difference(other.flags()).union(
                other.flags().difference(old(self).flags()),
            ),
    {
        proof {
            lemma_flag_set_ops(self@, other@);
        }
        self.bits = self.bits ^ other.bits;
    }

    /// Inserts or removes the specified flags depending on the passed value.
    pub fn set(&mut self, other: Self, value: bool)
        ensures
            final(self)@ == (if value { old(self)@ | other@ } else { old(self)@ & !other@ }),
            final(self).flags() == (if value {
                old(self).flags().union(other.flags())
            } else {
                old(self).flags().difference(other.flags())
            }),
    {
        if value {
            self.insert(other);
        } else {
            self.remove(other);
        }
    }

    /// Returns the flags present in both `self` and `other`.
    pub fn intersection(self, other: Self) -> (r: Self)
        ensures
            r@ == self@ & other@,
            r.flags() == self.flags().intersect(other.flags()),
    {
        proof {
            lemma_flag_set_ops(self@, other@);
        }
        StickyFaults { bits: self.bits & other.bits }
    }

    /// Returns the flags present in either `self` or `other`.
    pub fn union(self, other: Self) -> (r: Self)
        ensures
            r@ == self@ | other@,
            r.flags() == self.flags().union(other.flags()),
    {
        proof {
            lemma_flag_set_ops(self@, other@);
        }
        StickyFaults { bits: self.bits | other.bits }
    }

    /// Returns the flags present in `self` but not in `other`.
    pub fn difference(self, other: Self) -> (r: Self)
        ensures
            r@ == self@ & !other@,
            r.flags() == self.flags().difference(other.flags()),
    {
        proof {
            lemma_flag_set_ops(self@, other@);
        }
        StickyFaults { bits: self.bits & !other.bits }
    }

    /// Returns the flags present in exactly one of `self` and `other`.
    pub fn symmetric_difference(self, other: Self) -> (r: Self)
        ensures
            r@ == self@ ^ other@,
            r.flags() == self.flags().difference(other.flags()).union(other.flags().difference(self.flags())),
    {
        proof {
            lemma_flag_set_ops(self@, other@);
        }
        StickyFaults { bits: self.bits ^ other.bits }
    }

    /// Returns the flags that this type names and that are not set in `self`.
    pub fn complement(self) -> (r: Self)
        ensures
            r@ == !self@ & Self::spec_all_bits(),
            r.flags() == Self::spec_all_flags().difference(self.flags()),
    {
        proof {
            lemma_flag_set_masks();
            lemma_complement_in_mask(self@, 0x7FFi32);
        }
        Self::from_bits_truncate(!self.bits)
    }

    /// The union of all of `flags` (what collecting them gives).
    pub fn union_all(flags: &[Self]) -> (r: Self)
        ensures
            r@ == union_bits(flags@.map_values(|f: Self| f@)),
            forall|i: u32| #[trigger] r.flags().contains(i) <==> exists|j: int| 0 <= j < flags@.len() && #[trigger] flags@[j].flags().contains(i),
    {
        let ghost m = flags@.map_values(|f: Self| f@);
        let mut bits: i32 = 0;
        let mut n: usize = 0;
        while n < flags.len()
            invariant
                n <= flags.len(),
                m == flags@.map_values(|f: Self| f@),
                bits == union_bits(m.take(n as int)),
            decreases flags.len() - n,
        {
            proof {
                lemma_union_bits_step(m, n as int);
                assert(m.take(0) =~= Seq::<i32>::empty());
            }
            bits = bits | flags[n].bits;
            n = n + 1;
        }
        proof {
            if flags.len() == 0 {
                assert(m.take(0) =~= Seq::<i32>::empty());
            } else {
                lemma_union_bits_step(m, 0);
            }
            assert forall|i: u32| #[trigger] flag_set(bits).contains(i) <==> exists|j: int| 0 <= j < flags@.len() && #[trigger] flags@[j].flags().contains(i) by {
                lemma_union_bits_flags(m, i);
                if flag_set(bits).contains(i) {
                    let j = choose|j: int| 0 <= j < m.len() && #[trigger] flag_set(m[j]).contains(i);
                    assert(flags@[j].flags().contains(i));
                }
                if exists|j: int| 0 <= j < flags@.len() && #[trigger] flags@[j].flags().contains(i) {
                    let j = choose|j: int| 0 <= j < flags@.len() && #[trigger] flags@[j].flags().contains(i);
                    assert(flag_set(m[j]).contains(i));
                }
            }
        }
        StickyFaults { bits }
    }

    /// Inserts each of `flags` in turn.
    pub fn extend(&mut self, flags: &[Self])
        ensures
            final(self)@ == old(self)@ | union_bits(flags@.map_values(|f: Self| f@)),
            forall|i: u32| #[trigger] final(self).flags().contains(i) <==> (old(self).flags().contains(i) || exists|j: int| 0 <= j < flags@.len() && #[trigger] flags@[j].flags().contains(i)),
    {
        let all = Self::union_all(flags);
        self.insert(all);
    }

    /// The names of the flags, in the order of their bits.
    pub open spec fn spec_flag_names() -> Seq<Seq<char>> {
        seq![
            "UNDER_VOLTAGE"@,
            "FORWARD_LIMIT_SWITCH"@,
            "REVERSE_LIMIT_SWITCH"@,
            "FORWARD_SOFT_LIMIT"@,
            "REVERSE_SOFT_LIMIT"@,
            "RESET_DURING_EN"@,
            "SENSOR_OVERFLOW"@,
            "SENSOR_OUT_OF_PHASE"@,
            "HARDWARE_ESD_RESET"@,
            "REMOTE_LOSS_OF_SIGNAL"@,
            "API_ERROR"@,
        ]
    }

    /// The text that lists the flags that are set, in the form that `Debug`
    /// gives flags made with `bitflags`: the names joined by `" | "`, then
    /// any bits that no flag names in hexadecimal after `0x`, or `(empty)`.
    pub fn debug_string(&self) -> (r: String)
        ensures
            r@ == flags_text(self@, Self::spec_flag_names(), Self::spec_all_bits()),
    {
        let mut names: Vec<&str> = Vec::new();
        names.push("UNDER_VOLTAGE");
        names.push("FORWARD_LIMIT_SWITCH");
        names.push("REVERSE_LIMIT_SWITCH");
        names.push("FORWARD_SOFT_LIMIT");
        names.push("REVERSE_SOFT_LIMIT");
        names.push("RESET_DURING_EN");
        names.push("SENSOR_OVERFLOW");
        names.push("SENSOR_OUT_OF_PHASE");
        names.push("HARDWARE_ESD_RESET");
        names.push("REMOTE_LOSS_OF_SIGNAL");
        names.push("API_ERROR");
        proof {
            assert(names@.map_values(|n: &str| n@) =~= Self::spec_flag_names());
        }
        flags_text_of(self.bits, names.as_slice(), 0x7FFi32)
    }
}

impl StickyFaults {
    /// The flags with exactly the given bits.
    pub closed spec fn spec_with_bits(bits: i32) -> Self {
        StickyFaults { bits }
    }

    /// The flags with given bits have those bits, and flags are equal
    /// exactly when their bits are.
    pub proof fn lemma_with_bits(bits: i32, f: Self, g: Self)
        ensures
            Self::spec_with_bits(bits)@ == bits,
            Self::spec_with_bits(f@) == f,
            (f@ == g@) == (f == g),
    {
    }
}

impl core::ops::BitOr for StickyFaults {
    type Output = StickyFaults;

    /// The union of the two sets of flags.
    fn bitor(self, rhs: StickyFaults) -> (r: StickyFaults) {
        StickyFaults { bits: self.bits | rhs.bits }
    }
}

impl vstd::std_specs::ops::BitOrSpecImpl for StickyFaults {
    open spec fn obeys_bitor_spec() -> bool {
        true
    }

    open spec fn bitor_req(self, rhs: StickyFaults) -> bool {
        true
    }

    open spec fn bitor_spec(self, rhs: StickyFaults) -> StickyFaults {
        StickyFaults::spec_with_bits(self@ | rhs@)
    }
}

impl core::ops::BitOrAssign for StickyFaults {
    /// Replaces the flags with their union with `rhs`.
    fn bitor_assign(&mut self, rhs: StickyFaults)
        ensures
            final(self)@ == old(self)@ | rhs@,
    {
        self.bits = self.bits | rhs.bits;
    }
}

impl core::ops::BitAnd for StickyFaults {
    type Output = StickyFaults;

    /// The intersection of the two sets of flags.
    fn bitand(self, rhs: StickyFaults) -> (r: StickyFaults) {
        StickyFaults { bits: self.bits & rhs.bits }
    }
}

impl vstd::std_specs::ops::BitAndSpecImpl for StickyFaults {
    open spec fn obeys_bitand_spec() -> bool {
        true
    }

    open spec fn bitand_req(self, rhs: StickyFaults) -> bool {
        true
    }

    open spec fn bitand_spec(self, rhs: StickyFaults) -> StickyFaults {
        StickyFaults::spec_with_bits(self@ & rhs@)
    }
}

impl core::ops::BitAndAssign for StickyFaults {
    /// Replaces the flags with their intersection with `rhs`.
    fn bitand_assign(&mut self, rhs: StickyFaults)
        ensures
            final(self)@ == old(self)@ & rhs@,
    {
        self.bits = self.bits & rhs.bits;
    }
}

impl core::ops::BitXor for StickyFaults {
    type Output = StickyFaults;

    /// The symmetric difference of the two sets of flags.
    fn bitxor(self, rhs: StickyFaults) -> (r: StickyFaults) {
        StickyFaults { bits: self.bits ^ rhs.bits }
    }
}

impl vstd::std_specs::ops::BitXorSpecImpl for StickyFaults {
    open spec fn obeys_bitxor_spec() -> bool {
        true
    }

    open spec fn bitxor_req(self, rhs: StickyFaults) -> bool {
        true
    }

    open spec fn bitxor_spec(self, rhs: StickyFaults) -> StickyFaults {
        StickyFaults::spec_with_bits(self@ ^ rhs@)
    }
}

impl core::ops::BitXorAssign for StickyFaults {
    /// Replaces the flags with their symmetric difference with `rhs`.
    fn bitxor_assign(&mut self, rhs: StickyFaults)
        ensures
            final(self)@ == old(self)@ ^ rhs@,
    {
        self.bits = self.bits ^ rhs.bits;
    }
}

impl core::ops::Sub for StickyFaults {
    type Output = StickyFaults;

    /// The difference of the two sets of flags.
    fn sub(self, rhs: StickyFaults) -> (r: StickyFaults) {
        StickyFaults { bits: self.bits & !rhs.bits }
    }
}

impl vstd::std_specs::ops::SubSpecImpl for StickyFaults {
    open spec fn obeys_sub_spec() -> bool {
        true
    }

    open spec fn sub_req(self, rhs: StickyFaults) -> bool {
        true
    }

    open spec fn sub_spec(self, rhs: StickyFaults) -> StickyFaults {
        StickyFaults::spec_with_bits(self@ & !rhs@)
    }
}

impl core::ops::SubAssign for StickyFaults {
    /// Replaces the flags with their difference with `rhs`.
    fn sub_assign(&mut self, rhs: StickyFaults)
        ensures
            final(self)@ == old(self)@ & !rhs@,
    {
        self.bits = self.bits & !rhs.bits;
    }
}

impl core::ops::Not for StickyFaults {
    type Output = StickyFaults;

    /// The complement: the named flags that are not set.
    fn not(self) -> (r: StickyFaults) {
        StickyFaults { bits: !self.bits & 0x7FFi32 }
    }
}

impl vstd::std_specs::ops::NotSpecImpl for StickyFaults {
    open spec fn obeys_not_spec() -> bool {
        true
    }

    open spec fn not_req(self) -> bool {
        true
    }

    open spec fn not_spec(self) -> StickyFaults {
        StickyFaults::spec_with_bits(!self@ & Self::spec_all_bits())
    }
}

} // verus!
