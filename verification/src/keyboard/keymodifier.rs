//! The modifier keys as a bit set: one bit per key, set and cleared by
//! name.

use core::ops::BitOr;
use vstd::prelude::*;
use vstd::std_specs::ops::BitOrSpecImpl;

verus! {

/// One modifier key.
#[derive(Debug, Clone, Copy, PartialEq, Eq, Structural)]
pub enum Modifier {
    LeftCtrl,
    LeftShift,
    RightShift,
    LeftAlt,
    CapsLock,
    RightCtrl,
    RightAlt,
}

impl Modifier {
    /// The place of the key's bit, counted from the lowest.
    pub open spec fn index(self) -> u8 {
        match self {
            Modifier::LeftCtrl => 0,
            Modifier::LeftShift => 1,
            Modifier::RightShift => 2,
            Modifier::LeftAlt => 3,
            Modifier::CapsLock => 4,
            Modifier::RightCtrl => 5,
            Modifier::RightAlt => 6,
        }
    }

    /// The byte with the key's bit set and no other.
    pub open spec fn mask(self) -> u8 {
        1u8 << self.index()
    }

    /// The key's bit as a byte.
    pub fn bit(self) -> (r: u8)
        ensures
            r == self.mask(),
    {
        proof {
            lemma_masks();
        }
        match self {
            Modifier::LeftCtrl => 1,
            Modifier::LeftShift => 1 << 1,
            Modifier::RightShift => 1 << 2,
            Modifier::LeftAlt => 1 << 3,
            Modifier::CapsLock => 1 << 4,
            Modifier::RightCtrl => 1 << 5,
            Modifier::RightAlt => 1 << 6,
        }
    }
}

/// A set of modifier keys, held in one byte.
#[derive(Debug, Clone, Copy)]
pub struct KeyModifier(u8);

proof fn lemma_masks()
    ensures
        1u8 << 0u8 == 1u8,
        1u8 << 1u8 == 2u8,
        1u8 << 2u8 == 4u8,
        1u8 << 3u8 == 8u8,
        1u8 << 4u8 == 16u8,
        1u8 << 5u8 == 32u8,
        1u8 << 6u8 == 64u8,
{
    assert(1u8 << 0u8 == 1u8) by (bit_vector);
    assert(1u8 << 1u8 == 2u8) by (bit_vector);
    assert(1u8 << 2u8 == 4u8) by (bit_vector);
    assert(1u8 << 3u8 == 8u8) by (bit_vector);
    assert(1u8 << 4u8 == 16u8) by (bit_vector);
    assert(1u8 << 5u8 == 32u8) by (bit_vector);
    assert(1u8 << 6u8 == 64u8) by (bit_vector);
}

proof fn lemma_bits(bits: u8, other: u8, i: u8, j: u8)
    requires
        i < 7,
        j < 7,
    ensures
        (0u8 & (1u8 << j)) == 0,
        ((bits | (1u8 << i)) & (1u8 << j) != 0) == ((bits & (1u8 << j) != 0) || i == j),
        ((bits & !(1u8 << i)) & (1u8 << j) != 0) == ((bits & (1u8 << j) != 0) && i != j),
        ((bits | other) & (1u8 << j) != 0) == ((bits & (1u8 << j) != 0) || (other & (1u8 << j)
            != 0)),
        bits & 0x80 == 0 ==> (bits | (1u8 << i)) & 0x80 == 0 && (bits & !(1u8 << i)) & 0x80 == 0,
        (bits & 0x80 == 0 && other & 0x80 == 0) ==> (bits | other) & 0x80 == 0,
{
    assert((0u8 & (1u8 << j)) == 0) by (bit_vector);
    assert(((bits | (1u8 << i)) & (1u8 << j) != 0) == ((bits & (1u8 << j) != 0) || i == j))
        by (bit_vector)
        requires
            i < 7,
            j < 7,
    ;
    assert(((bits & !(1u8 << i)) & (1u8 << j) != 0) == ((bits & (1u8 << j) != 0) && i != j))
        by (bit_vector)
        requires
            i < 7,
            j < 7,
    ;
    assert(((bits | other) & (1u8 << j) != 0) == ((bits & (1u8 << j) != 0) || (other & (1u8 << j)
        != 0))) by (bit_vector);
    assert(bits & 0x80 == 0 ==> (bits | (1u8 << i)) & 0x80 == 0 && (bits & !(1u8 << i)) & 0x80
        == 0) by (bit_vector)
        requires
            i < 7,
    ;
    assert((bits & 0x80 == 0 && other & 0x80 == 0) ==> (bits | other) & 0x80 == 0) by (bit_vector);
}

/// Two bytes without the unused top bit share a bit exactly when they
/// share the bit of some modifier key.
proof fn lemma_common_bit(a: u8, b: u8)
    requires
        a & 0x80 == 0,
        b & 0x80 == 0,
    ensures
        (a & b != 0) == (exists|j: u8| j < 7 && a & (1u8 << j) != 0 && b & (1u8 << j) != 0),
{
    assert((a & b != 0) == ((a & (1u8 << 0u8) != 0 && b & (1u8 << 0u8) != 0) || (a & (1u8 << 1u8)
        != 0 && b & (1u8 << 1u8) != 0) || (a & (1u8 << 2u8) != 0 && b & (1u8 << 2u8) != 0) || (a & (
    1u8 << 3u8) != 0 && b & (1u8 << 3u8) != 0) || (a & (1u8 << 4u8) != 0 && b & (1u8 << 4u8) != 0)
        || (a & (1u8 << 5u8) != 0 && b & (1u8 << 5u8) != 0) || (a & (1u8 << 6u8) != 0 && b & (1u8
        << 6u8) != 0))) by (bit_vector)
        requires
            a & 0x80 == 0,
            b & 0x80 == 0,
    ;
    if a & b != 0 {
        let j: u8 = if a & (1u8 << 0u8) != 0 && b & (1u8 << 0u8) != 0 {
            0
        } else if a & (1u8 << 1u8) != 0 && b & (1u8 << 1u8) != 0 {
            1
        } else if a & (1u8 << 2u8) != 0 && b & (1u8 << 2u8) != 0 {
            2
        } else if a & (1u8 << 3u8) != 0 && b & (1u8 << 3u8) != 0 {
            3
        } else if a & (1u8 << 4u8) != 0 && b & (1u8 << 4u8) != 0 {
            4
        } else if a & (1u8 << 5u8) != 0 && b & (1u8 << 5u8) != 0 {
            5
        } else {
            6
        };
        assert(j < 7 && a & (1u8 << j) != 0 && b & (1u8 << j) != 0);
    }
}

impl View for KeyModifier {
    type V = Set<Modifier>;

    /// The keys whose bit is set.
    closed spec fn view(&self) -> Set<Modifier> {
        Set::new(|m: Modifier| self.0 & m.mask() != 0)
    }
}

impl KeyModifier {
    #[verifier::type_invariant]
    spec fn top_bit_clear(self) -> bool {
        self.0 & 0x80 == 0
    }

    /// Return a KeyModifier with no key in it.
    pub fn new() -> (r: Self)
        ensures
            r@ == Set::<Modifier>::empty(),
    {
        proof {
            assert(0u8 & 0x80 == 0) by (bit_vector);
            assert forall|m: Modifier| 0u8 & #[trigger] m.mask() == 0 by {
                lemma_bits(0, 0, 0, m.index());
            }
        }
        let r = Self(0);
        assert(r@ =~= Set::<Modifier>::empty());
        r
    }

    /// Set the modifier.
    pub fn set(&mut self, modifier: Modifier) -> (r: &mut Self)
        ensures
            r@ == old(self)@.insert(modifier),
            *final(self) == *final(r),
    {
        proof {
            use_type_invariant(&*self);
            assert forall|m: Modifier|
                ((self.0 | modifier.mask()) & #[trigger] m.mask() != 0) == ((self.0 & m.mask() != 0)
                    || m == modifier) by {
                lemma_bits(self.0, 0, modifier.index(), m.index());
            }
            lemma_bits(self.0, 0, modifier.index(), 0);
        }
        self.0 |= modifier.bit();
        assert(self@ =~= old(self)@.insert(modifier));
        self
    }

    /// Reset the modifier.
    pub fn reset(&mut self, modifier: Modifier) -> (r: &mut Self)
        ensures
            r@ == old(self)@.remove(modifier),
            *final(self) == *final(r),
    {
        proof {
            use_type_invariant(&*self);
            assert forall|m: Modifier|
                ((self.0 & !modifier.mask()) & #[trigger] m.mask() != 0) == ((self.0 & m.mask()
                    != 0) && m != modifier) by {
                lemma_bits(self.0, 0, modifier.index(), m.index());
            }
            lemma_bits(self.0, 0, modifier.index(), 0);
        }
        self.0 &= !modifier.bit();
        assert(self@ =~= old(self)@.remove(modifier));
        self
    }

    /// Check if modifier is set.
    pub fn is_set_one(&self, modifier: Modifier) -> (r: bool)
        ensures
            r == self@.contains(modifier),
    {
        self.0 & modifier.bit() != 0
    }

    /// Check if one of the modifiers of `keymodifier` is set.
    pub fn is_set(&self, keymodifier: Self) -> (r: bool)
        ensures
            r == !self@.disjoint(keymodifier@),
    {
        proof {
            use_type_invariant(self);
            use_type_invariant(&keymodifier);
            lemma_common_bit(self.0, keymodifier.0);
            if self.0 & keymodifier.0 != 0 {
                let j = choose|j: u8|
                    j < 7 && self.0 & (1u8 << j) != 0 && keymodifier.0 & (1u8 << j) != 0;
                let m = modifier_at(j);
                assert(self@.contains(m) && keymodifier@.contains(m));
            } else {
                assert forall|m: Modifier| !(self@.contains(m) && keymodifier@.contains(m)) by {
                    assert(m.index() < 7);
                }
            }
        }
        self.0 & (keymodifier.0) != 0
    }
}

/// The modifier key whose bit is at place `index`.
pub open spec fn modifier_at(index: u8) -> Modifier
    recommends
        index < 7,
{
    if index == 0 {
        Modifier::LeftCtrl
    } else if index == 1 {
        Modifier::LeftShift
    } else if index == 2 {
        Modifier::RightShift
    } else if index == 3 {
        Modifier::LeftAlt
    } else if index == 4 {
        Modifier::CapsLock
    } else if index == 5 {
        Modifier::RightCtrl
    } else {
        Modifier::RightAlt
    }
}

/// The named one-key sets.
impl KeyModifier {
    /// Return KeyModifier with LeftCtrl bit set.
    pub fn left_ctrl() -> (r: Self)
        ensures
            r@ == set![Modifier::LeftCtrl],
    {
        let r = Self::new().set(Modifier::LeftCtrl).clone();
        assert(r@ =~= set![Modifier::LeftCtrl]);
        r
    }

    /// Return KeyModifier with LeftShift bit set.
    pub fn left_shit() -> (r: Self)
        ensures
            r@ == set![Modifier::LeftShift],
    {
        let r = Self::new().set(Modifier::LeftShift).clone();
        assert(r@ =~= set![Modifier::LeftShift]);
        r
    }

    /// Return KeyModifier with LeftAlt bit set.
    pub fn left_alt() -> (r: Self)
        ensures
            r@ == set![Modifier::LeftAlt],
    {
        let r = Self::new().set(Modifier::LeftAlt).clone();
        assert(r@ =~= set![Modifier::LeftAlt]);
        r
    }

    /// Return KeyModifier with RightShift bit set.
    pub fn right_shift() -> (r: Self)
        ensures
            r@ == set![Modifier::RightShift],
    {
        let r = Self::new().set(Modifier::RightShift).clone();
        assert(r@ =~= set![Modifier::RightShift]);
        r
    }

    /// Return KeyModifier with RightCtrl bit set.
    pub fn right_ctrl() -> (r: Self)
        ensures
            r@ == set![Modifier::RightCtrl],
    {
        let r = Self::new().set(Modifier::RightCtrl).clone();
        assert(r@ =~= set![Modifier::RightCtrl]);
        r
    }

    /// Return KeyModifier with RightAlt bit set.
    pub fn right_alt() -> (r: Self)
        ensures
            r@ == set![Modifier::RightAlt],
    {
        let r = Self::new().set(Modifier::RightAlt).clone();
        assert(r@ =~= set![Modifier::RightAlt]);
        r
    }

    /// Return KeyModifier with CapsLock bit set.
    pub fn caps_lock() -> (r: Self)
        ensures
            r@ == set![Modifier::CapsLock],
    {
        let r = Self::new().set(Modifier::CapsLock).clone();
        assert(r@ =~= set![Modifier::CapsLock]);
        r
    }
}

impl BitOr for KeyModifier {
    type Output = Self;

    /// The keys of either set.
    fn bitor(self, rhs: Self) -> (r: Self)
        ensures
            r@ == self@.union(rhs@),
    {
        proof {
            use_type_invariant(&self);
            use_type_invariant(&rhs);
            lemma_bits(self.0, rhs.0, 0, 0);
            assert forall|m: Modifier|
                ((self.0 | rhs.0) & #[trigger] m.mask() != 0) == ((self.0 & m.mask() != 0) || (rhs.0
                    & m.mask() != 0)) by {
                lemma_bits(self.0, rhs.0, 0, m.index());
            }
        }
        let r = Self(self.0 | rhs.0);
        assert(r@ =~= self@.union(rhs@));
        r
    }
}

impl BitOrSpecImpl for KeyModifier {
    open spec fn obeys_bitor_spec() -> bool {
        true
    }

    open spec fn bitor_req(self, rhs: Self) -> bool {
        true
    }

    closed spec fn bitor_spec(self, rhs: Self) -> Self {
        KeyModifier(self.0 | rhs.0)
    }
}

} // verus!
