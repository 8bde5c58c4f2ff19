use vstd::prelude::*;

verus! {

/// A set of opt-in language features, one bit per feature.
///
/// Bits that name no feature are kept as they are (a value may be built from any byte),
/// so the model of a value is the whole byte.
#[derive(Clone, Copy, Debug, PartialOrd, Ord, PartialEq, Eq, Structural)]
pub struct LanguageFeatures(u8);

impl View for LanguageFeatures {
    type V = u8;

    closed spec fn view(&self) -> u8 {
        self.0
    }
}

impl LanguageFeatures {
    /// The set whose bits are exactly `bits`.
    pub closed spec fn from_byte(bits: u8) -> Self {
        LanguageFeatures(bits)
    }
}

/// A set built from a byte has that byte as its bits.
pub broadcast proof fn lemma_from_byte_view(bits: u8)
    ensures
        #[trigger] LanguageFeatures::from_byte(bits)@ == bits,
{
}

/// A set is determined by its bits.
pub broadcast proof fn lemma_from_byte_of_view(f: LanguageFeatures)
    ensures
        LanguageFeatures::from_byte(#[trigger] f@) == f,
{
}

/// The facts that tie a set to its bits.
pub broadcast group group_language_features {
    lemma_from_byte_view,
    lemma_from_byte_of_view,
}

/// Two sets with the same bits are the same set.
pub proof fn lemma_view_injective(a: LanguageFeatures, b: LanguageFeatures)
    requires
        a@ == b@,
    ensures
        a == b,
{
}

/// The set that merging `other` into `f` gives.
pub open spec fn merged(f: LanguageFeatures, other: LanguageFeatures) -> LanguageFeatures {
    LanguageFeatures::from_byte(f@ | other@)
}

/// The identifier of the version 2 syntax preview flag.
pub open spec fn v2_preview_syntax_ident() -> Seq<char> {
    "V2PreviewSyntax"@
}

/// The identifier of the QIR generation preview flag.
pub open spec fn preview_qir_gen_ident() -> Seq<char> {
    "PreviewQirGen"@
}

/// The flag that an identifier names, if any.
pub open spec fn ident_bits(ident: Seq<char>) -> Option<u8> {
    if ident == v2_preview_syntax_ident() {
        Some(v2_preview_syntax_bit())
    } else if ident == preview_qir_gen_ident() {
        Some(preview_qir_gen_bit())
    } else {
        None
    }
}

/// The union of the bits of a list of sets.
pub open spec fn union_all(flags: Seq<LanguageFeatures>) -> u8
    decreases flags.len(),
{
    if flags.len() == 0 {
        0u8
    } else {
        union_all(flags.drop_last()) | flags.last()@
    }
}

/// The named flags a byte holds, in declaration order, each with its identifier.
pub open spec fn named_flags(bits: u8) -> Seq<(Seq<char>, u8)> {
    (if bits & v2_preview_syntax_bit() != 0 {
        seq![(v2_preview_syntax_ident(), v2_preview_syntax_bit())]
    } else {
        Seq::empty()
    }) + (if bits & preview_qir_gen_bit() != 0 {
        seq![(preview_qir_gen_ident(), preview_qir_gen_bit())]
    } else {
        Seq::empty()
    })
}

/// The parts a byte splits into: each named flag it holds, in declaration order, then
/// the bits that name no feature, as one part, where there are any.
pub open spec fn flag_parts(bits: u8) -> Seq<u8> {
    named_flags(bits).map_values(|p: (Seq<char>, u8)| p.1) + (if bits & !all_bits() != 0 {
        seq![bits & !all_bits()]
    } else {
        Seq::empty()
    })
}

/// The bit of the version 2 syntax preview.
pub open spec fn v2_preview_syntax_bit() -> u8 {
    0b1u8
}

/// The bit of the QIR generation preview.
pub open spec fn preview_qir_gen_bit() -> u8 {
    0b10u8
}

/// The bits of every named feature.
pub open spec fn all_bits() -> u8 {
    v2_preview_syntax_bit() | preview_qir_gen_bit()
}

/// The named features take the two lowest bits.
proof fn lemma_all_bits()
    ensures
        all_bits() == 0b11u8,
{
    assert(0b1u8 | 0b10u8 == 0b11u8) by (bit_vector);
}

/// The name by which the version 2 syntax preview is selected.
pub open spec fn v2_preview_syntax_name() -> Seq<char> {
    "v2-preview-syntax"@
}

/// The name by which the QIR generation preview is selected.
pub open spec fn preview_qir_gen_name() -> Seq<char> {
    "preview-qir-gen"@
}

/// The feature bits that one name selects: those of the feature it names, none for
/// any other name.
pub open spec fn name_bits(name: Seq<char>) -> u8 {
    if name == v2_preview_syntax_name() {
        v2_preview_syntax_bit()
    } else if name == preview_qir_gen_name() {
        preview_qir_gen_bit()
    } else {
        0u8
    }
}

/// The feature bits that a list of names selects: the union of what each name selects.
pub open spec fn names_bits(names: Seq<Seq<char>>) -> u8
    decreases names.len(),
{
    if names.len() == 0 {
        0u8
    } else {
        names_bits(names.drop_last()) | name_bits(names.last())
    }
}

/// The text of each name in a list.
pub open spec fn names_view(names: Seq<&str>) -> Seq<Seq<char>> {
    names.map_values(|s: &str| s@)
}

impl LanguageFeatures {
    /// The flag of the version 2 syntax preview.
    #[allow(non_snake_case)]
    pub fn V2PreviewSyntax() -> (r: Self)
        ensures
            r@ == v2_preview_syntax_bit(),
    {
        LanguageFeatures(0b1)
    }

    /// The flag of the QIR generation preview.
    #[allow(non_snake_case)]
    pub fn PreviewQirGen() -> (r: Self)
        ensures
            r@ == preview_qir_gen_bit(),
    {
        LanguageFeatures(0b10)
    }

    /// The set with no feature.
    pub fn empty() -> (r: Self)
        ensures
            r@ == 0,
    {
        LanguageFeatures(0)
    }

    /// The set of every named feature.
    pub fn all() -> (r: Self)
        ensures
            r@ == all_bits(),
    {
        proof {
            lemma_all_bits();
        }
        LanguageFeatures(0b11)
    }

    /// The raw bits of the set.
    pub fn bits(&self) -> (r: u8)
        ensures
            r == self@,
    {
        self.0
    }

    /// The set with exactly the given bits, named or not.
    pub fn from_bits_retain(bits: u8) -> (r: Self)
        ensures
            r@ == bits,
    {
        LanguageFeatures(bits)
    }

    /// The set of the named features among the given bits; other bits are dropped.
    pub fn from_bits_truncate(bits: u8) -> (r: Self)
        ensures
            r@ == bits & all_bits(),
    {
        proof {
            lemma_all_bits();
        }
        LanguageFeatures(bits & 0b11)
    }

    /// The set with the given bits, where every one of them names a feature.
    pub fn from_bits(bits: u8) -> (r: Option<Self>)
        ensures
            r is Some <==> bits & all_bits() == bits,
            r matches Some(f) ==> f@ == bits,
    {
        let truncated = Self::from_bits_truncate(bits);
        if truncated.0 == bits {
            Some(truncated)
        } else {
            None
        }
    }

    /// Whether no bit is set.
    pub fn is_empty(&self) -> (r: bool)
        ensures
            r == (self@ == 0),
    {
        self.0 == 0
    }

    /// Whether every named feature is in the set.
    pub fn is_all(&self) -> (r: bool)
        ensures
            r == (all_bits() | self@ == self@),
    {
        proof {
            lemma_all_bits();
        }
        (0b11u8 | self.0) == self.0
    }

    /// Whether every feature of `other` is in the set.
    pub fn contains(&self, other: Self) -> (r: bool)
        ensures
            r == (self@ & other@ == other@),
    {
        self.0 & other.0 == other.0
    }

    /// Whether the set shares a bit with `other`.
    pub fn intersects(&self, other: Self) -> (r: bool)
        ensures
            r == (self@ & other@ != 0),
    {
        self.0 & other.0 != 0
    }

    /// The features of either set.
    pub fn union(self, other: Self) -> (r: Self)
        ensures
            r@ == self@ | other@,
    {
        LanguageFeatures(self.0 | other.0)
    }

    /// The features of both sets.
    pub fn intersection(self, other: Self) -> (r: Self)
        ensures
            r@ == self@ & other@,
    {
        LanguageFeatures(self.0 & other.0)
    }

    /// The features of `self` that are not in `other`.
    pub fn difference(self, other: Self) -> (r: Self)
        ensures
            r@ == self@ & !other@,
    {
        LanguageFeatures(self.0 & !other.0)
    }

    /// Adds the features of `other`.
    pub fn insert(&mut self, other: Self)
        ensures
            final(self)@ == old(self)@ | other@,
    {
        self.0 = self.0 | other.0;
    }

    /// Removes the features of `other`.
    pub fn remove(&mut self, other: Self)
        ensures
            final(self)@ == old(self)@ & !other@,
    {
        self.0 = self.0 & !other.0;
    }

    /// Flips the features of `other`.
    pub fn toggle(&mut self, other: Self)
        ensures
            final(self)@ == old(self)@ ^ other@,
    {
        self.0 = self.0 ^ other.0;
    }

    /// Adds the features of `other` when `value` holds, removes them otherwise.
    pub fn set(&mut self, other: Self, value: bool)
        ensures
            final(self)@ == if value {
                old(self)@ | other@
            } else {
                old(self)@ & !other@
            },
    {
        if value {
            self.insert(other);
        } else {
            self.remove(other);
        }
    }

    /// The features of exactly one of the two sets.
    pub fn symmetric_difference(self, other: Self) -> (r: Self)
        ensures
            r@ == self@ ^ other@,
    {
        LanguageFeatures(self.0 ^ other.0)
    }

    /// The named features that are not in the set.
    pub fn complement(self) -> (r: Self)
        ensures
            r@ == !self@ & all_bits(),
    {
        Self::from_bits_truncate(!self.0)
    }

    /// The flag whose identifier is `name`, if there is one.
    pub fn from_name(name: &str) -> (r: Option<Self>)
        ensures
            r matches Some(f) ==> ident_bits(name@) == Some(f@),
            r is None ==> ident_bits(name@) is None,
    {
        if name.is_empty() {
            proof {
                reveal_strlit("V2PreviewSyntax");
                reveal_strlit("PreviewQirGen");
            }
            return None;
        }
        let owned = name.to_owned();
        if owned == "V2PreviewSyntax".to_owned() {
            Some(Self::V2PreviewSyntax())
        } else if owned == "PreviewQirGen".to_owned() {
            Some(Self::PreviewQirGen())
        } else {
            None
        }
    }

    /// Adds the features of every set in `flags`.
    pub fn extend(&mut self, flags: &[Self])
        ensures
            final(self)@ == old(self)@ | union_all(flags@),
    {
        let ghost start = self@;
        proof {
            assert(union_all(flags@.take(0)) == 0u8);
            assert(start | 0u8 == start) by (bit_vector);
        }
        let mut i: usize = 0;
        while i < flags.len()
            invariant
                i <= flags.len(),
                self@ == start | union_all(flags@.take(i as int)),
            decreases flags.len() - i,
        {
            proof {
                let prefix = flags@.take(i as int + 1);
                assert(prefix.drop_last() =~= flags@.take(i as int));
                let (x, y, z) = (start, union_all(flags@.take(i as int)), flags@[i as int]@);
                assert((x | y) | z == x | (y | z)) by (bit_vector);
            }
            self.insert(flags[i]);
            i = i + 1;
        }
        proof {
            assert(flags@.take(i as int) =~= flags@);
        }
    }

    /// The named flags in the set, in declaration order, each with its identifier.
    pub fn iter_names(&self) -> (r: Vec<(&'static str, Self)>)
        ensures
            r@.map_values(|p: (&'static str, Self)| (p.0@, p.1@)) == named_flags(self@),
    {
        let mut r: Vec<(&'static str, Self)> = Vec::new();
        if self.0 & 0b1 != 0 {
            r.push(("V2PreviewSyntax", Self::V2PreviewSyntax()));
        }
        if self.0 & 0b10 != 0 {
            r.push(("PreviewQirGen", Self::PreviewQirGen()));
        }
        assert(r@.map_values(|p: (&'static str, Self)| (p.0@, p.1@)) =~= named_flags(self@));
        r
    }

    /// The parts of the set: each named flag it holds, in declaration order, then the bits
    /// that name no feature, as one set, where there are any.
    pub fn iter(&self) -> (r: Vec<Self>)
        ensures
            r@.map_values(|f: Self| f@) == flag_parts(self@),
    {
        let mut r: Vec<Self> = Vec::new();
        if self.0 & 0b1 != 0 {
            r.push(Self::V2PreviewSyntax());
        }
        if self.0 & 0b10 != 0 {
            r.push(Self::PreviewQirGen());
        }
        let rest = self.0 & !0b11u8;
        if rest != 0 {
            r.push(LanguageFeatures(rest));
        }
        proof {
            lemma_all_bits();
        }
        assert(r@.map_values(|f: Self| f@) =~= flag_parts(self@));
        r
    }

    /// Adds every feature of `other` to `self`.
    pub fn merge(&mut self, other: LanguageFeatures)
        ensures
            final(self)@ == old(self)@ | other@,
            *final(self) == merged(*old(self), other),
    {
        self.0 = self.0 | other.0;
    }

    /// The flag that one feature name selects: the named feature, or none for a name
    /// that is not known.
    pub fn from_feature_name(name: &str) -> (r: Self)
        ensures
            r@ == name_bits(name@),
    {
        let owned = name.to_owned();
        if owned == "v2-preview-syntax".to_owned() {
            Self::V2PreviewSyntax()
        } else if owned == "preview-qir-gen".to_owned() {
            Self::PreviewQirGen()
        } else {
            Self::empty()
        }
    }

    /// The set of the features that a list of names selects; unknown names select none.
    pub fn from_iter(names: &[&str]) -> (r: Self)
        ensures
            r@ == names_bits(names_view(names@)),
    {
        let ghost all_names = names_view(names@);
        let mut acc = Self::empty();
        let mut i: usize = 0;
        while i < names.len()
            invariant
                i <= names.len(),
                all_names == names_view(names@),
                acc@ == names_bits(all_names.take(i as int)),
            decreases names.len() - i,
        {
            let flag = Self::from_feature_name(names[i]);
            proof {
                let prefix = all_names.take(i as int + 1);
                assert(prefix.drop_last() =~= all_names.take(i as int));
                assert(prefix.last() == names@[i as int]@);
            }
            acc = acc.union(flag);
            i = i + 1;
        }
        proof {
            assert(all_names.take(i as int) =~= all_names);
        }
        acc
    }
}

impl Default for LanguageFeatures {
    /// The empty set.
    fn default() -> (r: Self)
        ensures
            r@ == 0,
    {
        LanguageFeatures::empty()
    }
}

impl core::ops::BitOr for LanguageFeatures {
    type Output = Self;

    /// The features of either set.
    fn bitor(self, rhs: Self) -> (r: Self) {
        self.union(rhs)
    }
}

impl vstd::std_specs::ops::BitOrSpecImpl for LanguageFeatures {
    open spec fn obeys_bitor_spec() -> bool {
        true
    }

    open spec fn bitor_req(self, rhs: Self) -> bool {
        true
    }

    open spec fn bitor_spec(self, rhs: Self) -> Self {
        LanguageFeatures::from_byte(self@ | rhs@)
    }
}

impl core::ops::BitAnd for LanguageFeatures {
    type Output = Self;

    /// The features of both sets.
    fn bitand(self, rhs: Self) -> (r: Self) {
        self.intersection(rhs)
    }
}

impl vstd::std_specs::ops::BitAndSpecImpl for LanguageFeatures {
    open spec fn obeys_bitand_spec() -> bool {
        true
    }

    open spec fn bitand_req(self, rhs: Self) -> bool {
        true
    }

    open spec fn bitand_spec(self, rhs: Self) -> Self {
        LanguageFeatures::from_byte(self@ & rhs@)
    }
}

impl core::ops::BitXor for LanguageFeatures {
    type Output = Self;

    /// The features of exactly one of the two sets.
    fn bitxor(self, rhs: Self) -> (r: Self) {
        self.symmetric_difference(rhs)
    }
}

impl vstd::std_specs::ops::BitXorSpecImpl for LanguageFeatures {
    open spec fn obeys_bitxor_spec() -> bool {
        true
    }

    open spec fn bitxor_req(self, rhs: Self) -> bool {
        true
    }

    open spec fn bitxor_spec(self, rhs: Self) -> Self {
        LanguageFeatures::from_byte(self@ ^ rhs@)
    }
}

impl core::ops::Sub for LanguageFeatures {
    type Output = Self;

    /// The features of the left set that are not in the right one.
    fn sub(self, rhs: Self) -> (r: Self) {
        self.difference(rhs)
    }
}

impl vstd::std_specs::ops::SubSpecImpl for LanguageFeatures {
    open spec fn obeys_sub_spec() -> bool {
        true
    }

    open spec fn sub_req(self, rhs: Self) -> bool {
        true
    }

    open spec fn sub_spec(self, rhs: Self) -> Self {
        LanguageFeatures::from_byte(self@ & !rhs@)
    }
}

impl core::ops::Not for LanguageFeatures {
    type Output = Self;

    /// The named features that are not in the set.
    fn not(self) -> (r: Self) {
        self.complement()
    }
}

impl vstd::std_specs::ops::NotSpecImpl for LanguageFeatures {
    open spec fn obeys_not_spec() -> bool {
        true
    }

    open spec fn not_req(self) -> bool {
        true
    }

    open spec fn not_spec(self) -> Self {
        LanguageFeatures::from_byte(!self@ & all_bits())
    }
}

impl core::ops::BitOrAssign for LanguageFeatures {
    /// Adds the features of `rhs`.
    fn bitor_assign(&mut self, rhs: Self)
        ensures
            final(self)@ == old(self)@ | rhs@,
    {
        self.insert(rhs);
    }
}

impl core::ops::BitAndAssign for LanguageFeatures {
    /// Keeps only the features that are also in `rhs`.
    fn bitand_assign(&mut self, rhs: Self)
        ensures
            final(self)@ == old(self)@ & rhs@,
    {
        self.0 = self.0 & rhs.0;
    }
}

impl core::ops::BitXorAssign for LanguageFeatures {
    /// Flips the features of `rhs`.
    fn bitxor_assign(&mut self, rhs: Self)
        ensures
            final(self)@ == old(self)@ ^ rhs@,
    {
        self.toggle(rhs);
    }
}

impl core::ops::SubAssign for LanguageFeatures {
    /// Removes the features of `rhs`.
    fn sub_assign(&mut self, rhs: Self)
        ensures
            final(self)@ == old(self)@ & !rhs@,
    {
        self.remove(rhs);
    }
}

} // verus!
