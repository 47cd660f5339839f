use vstd::prelude::*;

verus! {

/// The empty modifier set.
pub const NONE: u8 = 0;
/// The control key bit.
pub const CONTROL: u8 = 1;
/// The alt key bit.
pub const ALT: u8 = 2;
/// The shift key bit.
pub const SHIFT: u8 = 4;
/// The command key bit.
pub const COMMAND: u8 = 8;

/// A set of modifier keys, kept as a bit mask over `CONTROL`, `ALT`,
/// `SHIFT` and `COMMAND`.
#[derive(Clone, Copy, Debug, PartialEq, Eq, Structural)]
pub struct ModifierKey {
    bits: u8,
}

/// The mask of a modifier set given by four flags: each flag adds its bit.
pub open spec fn modifier_mask(control: bool, alt: bool, shift: bool, command: bool) -> u8 {
    ((if control { CONTROL as int } else { 0 }) + (if alt { ALT as int } else { 0 }) + (if shift {
        SHIFT as int
    } else {
        0
    }) + (if command { COMMAND as int } else { 0 })) as u8
}

impl View for ModifierKey {
    type V = u8;

    closed spec fn view(&self) -> u8 {
        self.bits
    }
}

impl ModifierKey {
    /// The modifier set holding exactly the keys whose flag is set.
    pub fn from_bools(control: bool, alt: bool, shift: bool, command: bool) -> (m: ModifierKey)
        ensures
            m@ == modifier_mask(control, alt, shift, command),
            m@ < 16,
    {
        let c: u8 = if control { CONTROL } else { NONE };
        let a: u8 = if alt { ALT } else { NONE };
        let s: u8 = if shift { SHIFT } else { NONE };
        let m: u8 = if command { COMMAND } else { NONE };
        let modifier_mask: u8 = NONE | c | a | s | m;
        proof {
            lemma_modifier_mask_bits(control, alt, shift, command);
        }
        ModifierKey { bits: modifier_mask }
    }

    /// The bit mask of this modifier set.
    pub fn bits(&self) -> (b: u8)
        ensures
            b == self@,
    {
        self.bits
    }

    /// The set of no modifier key.
    pub fn empty() -> (m: ModifierKey)
        ensures
            m@ == NONE,
    {
        ModifierKey { bits: NONE }
    }

    /// The set of every modifier key.
    pub fn all() -> (m: ModifierKey)
        ensures
            m@ == (CONTROL | ALT | SHIFT | COMMAND),
            m@ == 15,
    {
        assert((1u8 | 2u8 | 4u8 | 8u8) == 15u8) by (bit_vector);
        ModifierKey { bits: CONTROL | ALT | SHIFT | COMMAND }
    }

    /// The set with this mask, or `None` where the mask has a bit that
    /// names no modifier key.
    pub fn from_bits(bits: u8) -> (m: Option<ModifierKey>)
        ensures
            m is Some <==> bits & !15u8 == 0,
            m matches Some(k) ==> k@ == bits,
    {
        if bits & !15u8 == 0 {
            Some(ModifierKey { bits })
        } else {
            None
        }
    }

    /// The set with the bits of this mask that name modifier keys.
    pub fn from_bits_truncate(bits: u8) -> (m: ModifierKey)
        ensures
            m@ == bits & 15,
    {
        ModifierKey { bits: bits & 15 }
    }

    /// Whether the set holds no key.
    pub fn is_empty(&self) -> (r: bool)
        ensures
            r == (self@ == NONE),
    {
        self.bits == NONE
    }

    /// Whether the set holds every key.
    pub fn is_all(&self) -> (r: bool)
        ensures
            r == (self@ == 15),
    {
        self.bits == 15
    }

    /// Whether the set holds every key of `other`.
    pub fn contains(&self, other: ModifierKey) -> (r: bool)
        ensures
            r == (self@ & other@ == other@),
    {
        self.bits & other.bits == other.bits
    }

    /// Whether the set shares a key with `other`.
    pub fn intersects(&self, other: ModifierKey) -> (r: bool)
        ensures
            r == (self@ & other@ != 0),
    {
        self.bits & other.bits != 0
    }

    /// The keys of either set.
    pub fn union(&self, other: ModifierKey) -> (m: ModifierKey)
        ensures
            m@ == self@ | other@,
    {
        ModifierKey { bits: self.bits | other.bits }
    }

    /// The keys of both sets.
    pub fn intersection(&self, other: ModifierKey) -> (m: ModifierKey)
        ensures
            m@ == self@ & other@,
    {
        ModifierKey { bits: self.bits & other.bits }
    }

    /// The keys of this set that are not in `other`.
    pub fn difference(&self, other: ModifierKey) -> (m: ModifierKey)
        ensures
            m@ == self@ & !other@,
    {
        ModifierKey { bits: self.bits & !other.bits }
    }

    /// The keys of exactly one of the sets.
    pub fn symmetric_difference(&self, other: ModifierKey) -> (m: ModifierKey)
        ensures
            m@ == self@ ^ other@,
    {
        ModifierKey { bits: self.bits ^ other.bits }
    }

    /// The keys not in this set.
    pub fn complement(&self) -> (m: ModifierKey)
        ensures
            m@ == !self@ & 15,
    {
        ModifierKey { bits: !self.bits & 15 }
    }

    /// Adds the keys of `other`.
    pub fn insert(&mut self, other: ModifierKey)
        ensures
            final(self)@ == old(self)@ | other@,
    {
        self.bits = self.bits | other.bits;
    }

    /// Removes the keys of `other`.
    pub fn remove(&mut self, other: ModifierKey)
        ensures
            final(self)@ == old(self)@ & !other@,
    {
        self.bits = self.bits & !other.bits;
    }

    /// Adds the keys of `other` that are missing and removes those present.
    pub fn toggle(&mut self, other: ModifierKey)
        ensures
            final(self)@ == old(self)@ ^ other@,
    {
        self.bits = self.bits ^ other.bits;
    }
}

/// Building the mask with bitwise or gives the sum of the set bits, and each
/// key's bit is set exactly when its flag is.
pub proof fn lemma_modifier_mask_bits(control: bool, alt: bool, shift: bool, command: bool)
    ensures
        ({
            let c: u8 = if control { 1u8 } else { 0u8 };
            let a: u8 = if alt { 2u8 } else { 0u8 };
            let s: u8 = if shift { 4u8 } else { 0u8 };
            let m: u8 = if command { 8u8 } else { 0u8 };
            &&& ((((0u8 | c) | a) | s) | m) == modifier_mask(control, alt, shift, command)
        }),
        modifier_mask(control, alt, shift, command) & CONTROL != 0 <==> control,
        modifier_mask(control, alt, shift, command) & ALT != 0 <==> alt,
        modifier_mask(control, alt, shift, command) & SHIFT != 0 <==> shift,
        modifier_mask(control, alt, shift, command) & COMMAND != 0 <==> command,
        modifier_mask(control, alt, shift, command) < 16,
{
    let c: u8 = if control { 1u8 } else { 0u8 };
    let a: u8 = if alt { 2u8 } else { 0u8 };
    let s: u8 = if shift { 4u8 } else { 0u8 };
    let m: u8 = if command { 8u8 } else { 0u8 };
    assert(modifier_mask(control, alt, shift, command) == c + a + s + m);
    assert((((0u8 | c) | a) | s) | m == c + a + s + m) by (bit_vector)
        requires
            c == 0 || c == 1,
            a == 0 || a == 2,
            s == 0 || s == 4,
            m == 0 || m == 8,
    ;
    assert((c + a + s + m) as u8 & 1u8 != 0 <==> c == 1) by (bit_vector)
        requires
            c == 0 || c == 1,
            a == 0 || a == 2,
            s == 0 || s == 4,
            m == 0 || m == 8,
    ;
    assert((c + a + s + m) as u8 & 2u8 != 0 <==> a == 2) by (bit_vector)
        requires
            c == 0 || c == 1,
            a == 0 || a == 2,
            s == 0 || s == 4,
            m == 0 || m == 8,
    ;
    assert((c + a + s + m) as u8 & 4u8 != 0 <==> s == 4) by (bit_vector)
        requires
            c == 0 || c == 1,
            a == 0 || a == 2,
            s == 0 || s == 4,
            m == 0 || m == 8,
    ;
    assert((c + a + s + m) as u8 & 8u8 != 0 <==> m == 8) by (bit_vector)
        requires
            c == 0 || c == 1,
            a == 0 || a == 2,
            s == 0 || s == 4,
            m == 0 || m == 8,
    ;
}

/// A set built from flags holds a key exactly when its flag is set, and
/// the sets built from flags are the subsets of every key.
pub proof fn lemma_modifier_sets(control: bool, alt: bool, shift: bool, command: bool)
    ensures
        ({
            let m = modifier_mask(control, alt, shift, command);
            &&& (m & CONTROL == CONTROL <==> control)
            &&& (m & ALT == ALT <==> alt)
            &&& (m & SHIFT == SHIFT <==> shift)
            &&& (m & COMMAND == COMMAND <==> command)
            &&& m & 15 == m
            &&& (15u8 & m) == m
        }),
{
    lemma_modifier_mask_bits(control, alt, shift, command);
    let m = modifier_mask(control, alt, shift, command);
    assert(m < 16 ==> (m & 1u8 != 0 <==> m & 1u8 == 1u8)) by (bit_vector);
    assert(m < 16 ==> (m & 2u8 != 0 <==> m & 2u8 == 2u8)) by (bit_vector);
    assert(m < 16 ==> (m & 4u8 != 0 <==> m & 4u8 == 4u8)) by (bit_vector);
    assert(m < 16 ==> (m & 8u8 != 0 <==> m & 8u8 == 8u8)) by (bit_vector);
    assert(m < 16 ==> m & 15u8 == m && 15u8 & m == m) by (bit_vector);
}

/// Two modifier masks are equal exactly when the four flags are.
pub proof fn lemma_modifier_mask_injective(
    c1: bool,
    a1: bool,
    s1: bool,
    m1: bool,
    c2: bool,
    a2: bool,
    s2: bool,
    m2: bool,
)
    ensures
        modifier_mask(c1, a1, s1, m1) == modifier_mask(c2, a2, s2, m2) <==> (c1 == c2 && a1 == a2
            && s1 == s2 && m1 == m2),
{
    lemma_modifier_mask_bits(c1, a1, s1, m1);
    lemma_modifier_mask_bits(c2, a2, s2, m2);
}

/// Orientation of a pop-up.
#[derive(Clone, Copy, Debug, PartialEq, Eq, Structural)]
pub enum PopUpOrientation {
    Horizontal,
    Vertical,
}

/// A rectangle in screen coordinates.
#[derive(Clone, Copy, Debug, PartialEq, Eq, Structural)]
pub struct PlatformRect {
    pub left: i32,
    pub top: i32,
    pub right: i32,
    pub bottom: i32,
}

impl Default for PlatformRect {
    fn default() -> (r: PlatformRect)
        ensures
            r.left == 0 && r.top == 0 && r.right == 0 && r.bottom == 0,
    {
        PlatformRect { left: 0, top: 0, right: 0, bottom: 0 }
    }
}

/// A connected monitor.
#[derive(Clone, Debug, PartialEq)]
pub struct MonitorInfo {
    pub name: String,
    pub id: String,
    pub native_width: i32,
    pub native_height: i32,
    pub is_primary: bool,
}

impl Default for MonitorInfo {
    fn default() -> (r: MonitorInfo)
        ensures
            r.name@ == Seq::<char>::empty(),
            r.id@ == Seq::<char>::empty(),
            r.native_width == 0,
            r.native_height == 0,
            !r.is_primary,
    {
        MonitorInfo {
            name: String::new(),
            id: String::new(),
            native_width: 0,
            native_height: 0,
            is_primary: false,
        }
    }
}

/// Alignment of a window title.
#[derive(Clone, Copy, Debug, PartialEq, Eq, Structural)]
pub enum WindowTitleAlignment {
    Left,
    Center,
    Right,
}

} // verus!
