//! Enchantments and custom names carried by item stacks.

use vstd::prelude::*;

verus! {

/// Longest custom name an item stack keeps, in characters.
pub const ITEM_NAME_CAPACITY: usize = 32;

/// One enchantment with its level.
#[derive(Debug, Clone, Copy, PartialEq, Eq, Hash, Structural)]
pub enum Enchantment {
    Protection(u8),
    Sharpness(u8),
    Efficiency(u8),
    Unbreaking(u8),
    Fortune(u8),
    Power(u8),
}

/// The enchantments on a stack: one level per kind, 0 when absent.
#[derive(Debug, Clone, Copy, PartialEq, Eq, Hash, Structural)]
pub struct EnchantmentSet {
    pub protection: u8,
    pub sharpness: u8,
    pub efficiency: u8,
    pub unbreaking: u8,
    pub fortune: u8,
    pub power: u8,
}

pub open spec fn max_u8(a: u8, b: u8) -> u8 {
    if a < b { b } else { a }
}

impl EnchantmentSet {
    pub open spec fn spec_empty() -> EnchantmentSet {
        EnchantmentSet { protection: 0, sharpness: 0, efficiency: 0, unbreaking: 0, fortune: 0, power: 0 }
    }

    /// The set after adding `e`: its kind's level becomes the higher of the old level and `e`'s.
    pub open spec fn spec_with(self, e: Enchantment) -> EnchantmentSet {
        match e {
            Enchantment::Protection(l) => EnchantmentSet { protection: max_u8(self.protection, l), ..self },
            Enchantment::Sharpness(l) => EnchantmentSet { sharpness: max_u8(self.sharpness, l), ..self },
            Enchantment::Efficiency(l) => EnchantmentSet { efficiency: max_u8(self.efficiency, l), ..self },
            Enchantment::Unbreaking(l) => EnchantmentSet { unbreaking: max_u8(self.unbreaking, l), ..self },
            Enchantment::Fortune(l) => EnchantmentSet { fortune: max_u8(self.fortune, l), ..self },
            Enchantment::Power(l) => EnchantmentSet { power: max_u8(self.power, l), ..self },
        }
    }

    /// Add an enchantment, or raise the level of one already present; a lower level never replaces a higher one.
    pub fn add_or_upgrade(&mut self, e: Enchantment)
        ensures
            *final(self) == old(self).spec_with(e),
    {
        match e {
            Enchantment::Protection(l) => if self.protection < l { self.protection = l; },
            Enchantment::Sharpness(l) => if self.sharpness < l { self.sharpness = l; },
            Enchantment::Efficiency(l) => if self.efficiency < l { self.efficiency = l; },
            Enchantment::Unbreaking(l) => if self.unbreaking < l { self.unbreaking = l; },
            Enchantment::Fortune(l) => if self.fortune < l { self.fortune = l; },
            Enchantment::Power(l) => if self.power < l { self.power = l; },
        }
    }

    /// True when no enchantment is present.
    pub fn is_empty(&self) -> (r: bool)
        ensures
            r == (*self == Self::spec_empty()),
    {
        self.protection == 0 && self.sharpness == 0 && self.efficiency == 0 && self.unbreaking == 0
            && self.fortune == 0 && self.power == 0
    }
}

impl Default for EnchantmentSet {
    fn default() -> (r: EnchantmentSet)
        ensures
            r == EnchantmentSet::spec_empty(),
    {
        EnchantmentSet { protection: 0, sharpness: 0, efficiency: 0, unbreaking: 0, fortune: 0, power: 0 }
    }
}

/// A custom stack name of at most `ITEM_NAME_CAPACITY` characters; unused places hold `'\0'`.
#[derive(Debug, Clone, Copy, PartialEq, Eq, Hash)]
pub struct ItemName {
    pub len: u8,
    pub chars: [char; 32],
}

impl ItemName {
    /// The name's text.
    pub open spec fn text(self) -> Seq<char> {
        self.chars@.subrange(0, self.len as int)
    }

    /// True for the empty name with every place cleared.
    pub open spec fn spec_is_blank(self) -> bool {
        &&& self.len == 0
        &&& forall|i: int| 0 <= i < ITEM_NAME_CAPACITY ==> self.chars@[i] == '\0'
    }

    /// A name holds its text in its first `len` places and `'\0'` after them.
    pub open spec fn wf(self) -> bool {
        &&& self.len <= ITEM_NAME_CAPACITY
        &&& forall|i: int| self.len <= i < ITEM_NAME_CAPACITY ==> self.chars@[i] == '\0'
    }

    /// The empty name with every place cleared (there is exactly one).
    pub open spec fn spec_blank() -> ItemName {
        choose|n: ItemName| n.spec_is_blank()
    }

    /// The empty name.
    pub fn blank() -> (r: ItemName)
        ensures
            r == Self::spec_blank(),
            r.spec_is_blank(),
            r.wf(),
    {
        let r = ItemName { len: 0, chars: ['\0'; 32] };
        proof {
            assert(r.spec_is_blank());
            let c = Self::spec_blank();
            assert(c.spec_is_blank());
            assert(r.chars =~= c.chars);
        }
        r
    }

    /// Replace the name with the first `ITEM_NAME_CAPACITY` characters of `name`.
    pub fn set(&mut self, name: &str)
        ensures
            final(self).wf(),
            final(self).text() == name@.take(
                if name@.len() < ITEM_NAME_CAPACITY { name@.len() as int } else { ITEM_NAME_CAPACITY as int },
            ),
    {
        let n = name.unicode_len();
        let take: usize = if n < ITEM_NAME_CAPACITY { n } else { ITEM_NAME_CAPACITY };
        let mut chars = ['\0'; 32];
        let mut i: usize = 0;
        while i < take
            invariant
                take <= ITEM_NAME_CAPACITY,
                take <= name@.len(),
                i <= take,
                forall|j: int| 0 <= j < i ==> chars@[j] == name@[j],
                forall|j: int| i <= j < ITEM_NAME_CAPACITY ==> chars@[j] == '\0',
            decreases take - i,
        {
            chars[i] = name.get_char(i);
            i += 1;
        }
        self.len = take as u8;
        self.chars = chars;
        assert(self.text() =~= name@.take(take as int));
    }

    /// True when both names are identical, unused places included.
    pub fn same_as(&self, other: &ItemName) -> (r: bool)
        ensures
            r == (*self == *other),
    {
        if self.len != other.len {
            return false;
        }
        let mut i: usize = 0;
        while i < ITEM_NAME_CAPACITY
            invariant
                i <= ITEM_NAME_CAPACITY,
                forall|j: int| 0 <= j < i ==> self.chars@[j] == other.chars@[j],
            decreases ITEM_NAME_CAPACITY - i,
        {
            if self.chars[i] != other.chars[i] {
                return false;
            }
            i += 1;
        }
        assert(self.chars =~= other.chars);
        true
    }
}

impl Default for ItemName {
    fn default() -> (r: ItemName)
        ensures
            r == ItemName::spec_blank(),
            r.spec_is_blank(),
            r.wf(),
    {
        ItemName::blank()
    }
}

} // verus!
