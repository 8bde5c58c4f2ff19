//! What holds of every set of language features and of every list of feature names.
use vstd::prelude::*;

use crate::language_features::{
    LanguageFeatures,
    all_bits,
    flag_parts,
    group_language_features,
    ident_bits,
    merged,
    named_flags,
    names_view,
    union_all,
    name_bits,
    names_bits,
    preview_qir_gen_bit,
    preview_qir_gen_name,
    v2_preview_syntax_bit,
    v2_preview_syntax_name,
};

verus! {

/// Merging `b` into `a` gives the same set as merging `a` into `b`.
pub proof fn merge_commutes(a: LanguageFeatures, b: LanguageFeatures)
    ensures
        merged(a, b) == merged(b, a),
{
    broadcast use group_language_features;

    let (x, y) = (a@, b@);
    assert(x | y == y | x) by (bit_vector);
}

/// Merging three sets gives the same set whichever two are merged first.
pub proof fn merge_associates(a: LanguageFeatures, b: LanguageFeatures, c: LanguageFeatures)
    ensures
        merged(merged(a, b), c) == merged(a, merged(b, c)),
{
    broadcast use group_language_features;

    let (x, y, z) = (a@, b@, c@);
    assert((x | y) | z == x | (y | z)) by (bit_vector);
}

/// Merging a set into itself changes nothing.
pub proof fn merge_idempotent(a: LanguageFeatures)
    ensures
        merged(a, a) == a,
{
    broadcast use group_language_features;

    let x = a@;
    assert(x | x == x) by (bit_vector);
}

/// Merging the empty (default) set changes nothing, and merging into it gives the
/// merged set.
pub proof fn merge_empty_is_identity(a: LanguageFeatures, empty: LanguageFeatures)
    requires
        empty@ == 0,
    ensures
        merged(a, empty) == a,
        merged(empty, a) == a,
{
    broadcast use group_language_features;

    let x = a@;
    assert(x | 0u8 == x && 0u8 | x == x) by (bit_vector);
}

/// After a merge the set contains every feature of both sets, and nothing else.
pub proof fn merge_contains_both(a: LanguageFeatures, b: LanguageFeatures)
    ensures
        merged(a, b)@ & a@ == a@,
        merged(a, b)@ & b@ == b@,
        forall|bit: u8| #![trigger merged(a, b)@ & bit]
            (a@ & bit == 0 && b@ & bit == 0) ==> merged(a, b)@ & bit == 0,
{
    broadcast use group_language_features;

    let (x, y) = (a@, b@);
    assert((x | y) & x == x && (x | y) & y == y) by (bit_vector);
    assert forall|bit: u8| #![trigger (x | y) & bit]
        (x & bit == 0 && y & bit == 0) implies (x | y) & bit == 0 by {
        assert((x & bit == 0 && y & bit == 0) ==> (x | y) & bit == 0) by (bit_vector);
    }
}

/// The bits a list of names selects: that of the syntax preview exactly where the list
/// holds its name, that of QIR generation exactly where the list holds its name, and no
/// other.
pub proof fn names_bits_closed_form(names: Seq<Seq<char>>)
    ensures
        names_bits(names) == (if names.contains(v2_preview_syntax_name()) {
            v2_preview_syntax_bit()
        } else {
            0u8
        }) | (if names.contains(preview_qir_gen_name()) {
            preview_qir_gen_bit()
        } else {
            0u8
        }),
    decreases names.len(),
{
    let v2 = v2_preview_syntax_name();
    let qir = preview_qir_gen_name();
    if names.len() == 0 {
        assert(!names.contains(v2));
        assert(!names.contains(qir));
        assert(0u8 | 0u8 == 0u8) by (bit_vector);
    } else {
        let prefix = names.drop_last();
        let x = names.last();
        names_bits_closed_form(prefix);
        assert(names == prefix.push(x));
        assert(names.contains(v2) <==> (prefix.contains(v2) || x == v2)) by {
            if x == v2 {
                assert(names[names.len() - 1] == v2);
            }
            if prefix.contains(v2) {
                let i = choose|i: int| 0 <= i < prefix.len() && prefix[i] == v2;
                assert(names[i] == v2);
            }
        }
        assert(names.contains(qir) <==> (prefix.contains(qir) || x == qir)) by {
            if x == qir {
                assert(names[names.len() - 1] == qir);
            }
            if prefix.contains(qir) {
                let i = choose|i: int| 0 <= i < prefix.len() && prefix[i] == qir;
                assert(names[i] == qir);
            }
        }
        names_differ();
        let (b1, b2, c1, c2) = (prefix.contains(v2), prefix.contains(qir), x == v2, x == qir);
        assert(((if b1 { 1u8 } else { 0u8 }) | (if b2 { 2u8 } else { 0u8 })) | (if c1 {
            1u8
        } else if c2 {
            2u8
        } else {
            0u8
        }) == (if b1 || c1 { 1u8 } else { 0u8 }) | (if b2 || c2 { 2u8 } else { 0u8 }))
            by (bit_vector)
            requires
                !(c1 && c2),
        ;
    }
}

/// The two feature names are different.
proof fn names_differ()
    ensures
        v2_preview_syntax_name() != preview_qir_gen_name(),
{
    reveal_strlit("v2-preview-syntax");
    reveal_strlit("preview-qir-gen");
    assert(v2_preview_syntax_name().len() != preview_qir_gen_name().len());
}

/// The names of a joined list select what the two lists select, merged.
pub proof fn names_bits_of_concat(a: Seq<Seq<char>>, b: Seq<Seq<char>>)
    ensures
        names_bits(a + b) == names_bits(a) | names_bits(b),
{
    let v2 = v2_preview_syntax_name();
    let qir = preview_qir_gen_name();
    let ab = a + b;
    names_bits_closed_form(a);
    names_bits_closed_form(b);
    names_bits_closed_form(ab);
    assert(ab.contains(v2) <==> (a.contains(v2) || b.contains(v2))) by {
        seq_concat_contains(a, b, v2);
    }
    assert(ab.contains(qir) <==> (a.contains(qir) || b.contains(qir))) by {
        seq_concat_contains(a, b, qir);
    }
    let (a1, a2, b1, b2) = (a.contains(v2), a.contains(qir), b.contains(v2), b.contains(qir));
    assert((if a1 || b1 { 1u8 } else { 0u8 }) | (if a2 || b2 { 2u8 } else { 0u8 }) == ((if a1 {
        1u8
    } else {
        0u8
    }) | (if a2 { 2u8 } else { 0u8 })) | ((if b1 { 1u8 } else { 0u8 }) | (if b2 {
        2u8
    } else {
        0u8
    }))) by (bit_vector);
}

/// A joined list holds a value exactly where one of its parts does.
proof fn seq_concat_contains(a: Seq<Seq<char>>, b: Seq<Seq<char>>, x: Seq<char>)
    ensures
        (a + b).contains(x) <==> (a.contains(x) || b.contains(x)),
{
    let ab = a + b;
    if a.contains(x) {
        let i = choose|i: int| 0 <= i < a.len() && a[i] == x;
        assert(ab[i] == x);
    }
    if b.contains(x) {
        let i = choose|i: int| 0 <= i < b.len() && b[i] == x;
        assert(ab[a.len() + i] == x);
    }
    if ab.contains(x) {
        let i = choose|i: int| 0 <= i < ab.len() && ab[i] == x;
        if i < a.len() {
            assert(a[i] == x);
        } else {
            assert(b[i - a.len()] == x);
        }
    }
}

/// Two lists that hold the same names, in whatever order and however often, select the
/// same features.
pub proof fn names_bits_ignore_order_and_repeats(a: Seq<Seq<char>>, b: Seq<Seq<char>>)
    requires
        forall|x: Seq<char>| a.contains(x) <==> b.contains(x),
    ensures
        names_bits(a) == names_bits(b),
{
    names_bits_closed_form(a);
    names_bits_closed_form(b);
    assert(a.contains(v2_preview_syntax_name()) == b.contains(v2_preview_syntax_name()));
    assert(a.contains(preview_qir_gen_name()) == b.contains(preview_qir_gen_name()));
}

/// A list of names selects only named features.
pub proof fn names_bits_are_named(names: Seq<Seq<char>>)
    ensures
        names_bits(names) & all_bits() == names_bits(names),
{
    names_bits_closed_form(names);
    let (c1, c2) = (names.contains(v2_preview_syntax_name()), names.contains(preview_qir_gen_name()));
    assert(((if c1 { 1u8 } else { 0u8 }) | (if c2 { 2u8 } else { 0u8 })) & (1u8 | 2u8) == (if c1 {
        1u8
    } else {
        0u8
    }) | (if c2 { 2u8 } else { 0u8 })) by (bit_vector);
}

/// A single name selects what the list of that name alone selects.
pub proof fn names_bits_of_one(name: Seq<char>)
    ensures
        names_bits(seq![name]) == name_bits(name),
{
    let s = seq![name];
    assert(s.drop_last() =~= Seq::<Seq<char>>::empty());
    assert(names_bits(s.drop_last()) == 0u8);
    assert(s.last() == name);
    let n = name_bits(name);
    assert(0u8 | n == n) by (bit_vector);
}

/// Extending adds every listed set: the bits that a list gathers hold each set of the list.
pub proof fn union_all_holds_each(flags: Seq<LanguageFeatures>, i: int)
    requires
        0 <= i < flags.len(),
    ensures
        union_all(flags) & flags[i]@ == flags[i]@,
    decreases flags.len(),
{
    let prefix = flags.drop_last();
    let (u, x) = (union_all(prefix), flags.last()@);
    if i == flags.len() - 1 {
        assert((u | x) & x == x) by (bit_vector);
    } else {
        union_all_holds_each(prefix, i);
        let y = flags[i]@;
        assert(prefix[i]@ == y);
        assert((u | x) & y == y) by (bit_vector)
            requires
                u & y == y,
        ;
    }
}

/// Extending adds nothing but the listed sets: a bit that no set of the list holds is not
/// gathered.
pub proof fn union_all_holds_nothing_else(flags: Seq<LanguageFeatures>, mask: u8)
    requires
        forall|i: int| 0 <= i < flags.len() ==> #[trigger] flags[i]@ & !mask == 0,
    ensures
        union_all(flags) & !mask == 0,
    decreases flags.len(),
{
    if flags.len() == 0 {
        assert(0u8 & !mask == 0) by (bit_vector);
    } else {
        let prefix = flags.drop_last();
        assert forall|i: int| 0 <= i < prefix.len() implies #[trigger] prefix[i]@ & !mask == 0 by {
            assert(prefix[i] == flags[i]);
        }
        union_all_holds_nothing_else(prefix, mask);
        let (u, x) = (union_all(prefix), flags.last()@);
        assert(flags[flags.len() - 1]@ & !mask == 0);
        assert((u | x) & !mask == 0) by (bit_vector)
            requires
                u & !mask == 0,
                x & !mask == 0,
        ;
    }
}

/// Extending by one more set adds exactly that set's bits.
pub proof fn union_all_push(flags: Seq<LanguageFeatures>, f: LanguageFeatures)
    ensures
        union_all(flags.push(f)) == union_all(flags) | f@,
{
    assert(flags.push(f).drop_last() =~= flags);
}

/// Only the two flag identifiers name a flag, each the flag it is written for; the
/// configuration names of the features are no identifiers.
pub proof fn ident_bits_only_identifiers(ident: Seq<char>)
    ensures
        ident_bits(ident) matches Some(b) ==> (ident == "V2PreviewSyntax"@ && b == 0b1u8) || (
        ident == "PreviewQirGen"@ && b == 0b10u8),
        ident == "V2PreviewSyntax"@ ==> ident_bits(ident) == Some(0b1u8),
        ident == "PreviewQirGen"@ ==> ident_bits(ident) == Some(0b10u8),
        name_bits(ident) != 0 ==> ident_bits(ident) is None,
{
    names_differ_identifiers();
    reveal_strlit("V2PreviewSyntax");
    reveal_strlit("PreviewQirGen");
    reveal_strlit("v2-preview-syntax");
    reveal_strlit("preview-qir-gen");
    if name_bits(ident) != 0 {
        if ident == "V2PreviewSyntax"@ {
            assert(ident[0] != "v2-preview-syntax"@[0]);
            assert(ident.len() != "preview-qir-gen"@.len());
        }
        if ident == "PreviewQirGen"@ {
            assert(ident.len() != "v2-preview-syntax"@.len());
            assert(ident[0] != "preview-qir-gen"@[0]);
        }
    }
}

/// A configuration name selects its own feature, and any other text selects none.
pub proof fn name_bits_by_configuration_name(name: Seq<char>)
    ensures
        name == "v2-preview-syntax"@ ==> name_bits(name) == 0b1u8,
        name == "preview-qir-gen"@ ==> name_bits(name) == 0b10u8,
        name != "v2-preview-syntax"@ && name != "preview-qir-gen"@ ==> name_bits(name) == 0u8,
{
    names_differ();
}

/// Each named flag of a set is listed under its own identifier, in declaration order,
/// and exactly the named flags that the set holds are listed.
pub proof fn named_flags_label_each_flag(bits: u8)
    ensures
        forall|i: int| 0 <= i < named_flags(bits).len() ==> {
            let (name, flag) = #[trigger] named_flags(bits)[i];
            (name == "V2PreviewSyntax"@ && flag == 0b1u8) || (name == "PreviewQirGen"@ && flag
                == 0b10u8)
        },
        forall|i: int| 0 <= i < named_flags(bits).len() ==> bits & (#[trigger] named_flags(bits)[i]).1
            == named_flags(bits)[i].1,
        forall|i: int, j: int|
            0 <= i < j < named_flags(bits).len() ==> (#[trigger] named_flags(bits)[i]).1 < (
            #[trigger] named_flags(bits)[j]).1,
        named_flags(bits).contains(("V2PreviewSyntax"@, 0b1u8)) <==> bits & 0b1u8 != 0,
        named_flags(bits).contains(("PreviewQirGen"@, 0b10u8)) <==> bits & 0b10u8 != 0,
{
    let s = named_flags(bits);
    let a = ("V2PreviewSyntax"@, 0b1u8);
    let b = ("PreviewQirGen"@, 0b10u8);
    let (c1, c2) = (bits & 1u8 != 0, bits & 2u8 != 0);
    assert(bits & 1u8 != 0 ==> bits & 1u8 == 1u8) by (bit_vector);
    assert(bits & 2u8 != 0 ==> bits & 2u8 == 2u8) by (bit_vector);
    names_differ_identifiers();
    if c1 {
        if c2 {
            assert(s =~= seq![a, b]);
            assert(s[0] == a && s[1] == b);
        } else {
            assert(s =~= seq![a]);
            assert(s[0] == a);
            assert(!s.contains(b));
        }
    } else {
        if c2 {
            assert(s =~= seq![b]);
            assert(s[0] == b);
            assert(!s.contains(a));
        } else {
            assert(s =~= Seq::<(Seq<char>, u8)>::empty());
            assert(!s.contains(a));
            assert(!s.contains(b));
        }
    }
}

/// The two flag identifiers are different.
proof fn names_differ_identifiers()
    ensures
        "V2PreviewSyntax"@ != "PreviewQirGen"@,
{
    reveal_strlit("V2PreviewSyntax");
    reveal_strlit("PreviewQirGen");
    assert("V2PreviewSyntax"@[0] != "PreviewQirGen"@[0]);
}

/// The parts of a set are non-empty, disjoint pieces of it, and the named ones are
/// exactly the named flags that it holds.
pub proof fn flag_parts_split_the_set(bits: u8)
    ensures
        forall|i: int| 0 <= i < flag_parts(bits).len() ==> #[trigger] flag_parts(bits)[i] != 0
            && bits & flag_parts(bits)[i] == flag_parts(bits)[i],
        forall|i: int, j: int|
            0 <= i < j < flag_parts(bits).len() ==> #[trigger] flag_parts(bits)[i]
                & #[trigger] flag_parts(bits)[j] == 0,
        flag_parts(bits).contains(0b1u8) <==> bits & 0b1u8 != 0,
        flag_parts(bits).contains(0b10u8) <==> bits & 0b10u8 != 0,
{
    flag_parts_cases(bits);
}

/// The parts of a set cover it: a bit that no part holds is not in the set.
pub proof fn flag_parts_cover_the_set(bits: u8, mask: u8)
    requires
        forall|i: int| 0 <= i < flag_parts(bits).len() ==> #[trigger] flag_parts(bits)[i] & mask
            == 0,
    ensures
        bits & mask == 0,
{
    flag_parts_cases(bits);
    let p = flag_parts(bits);
    let r = bits & !0b11u8;
    if bits & 1u8 != 0 {
        let i = choose|i: int| 0 <= i < p.len() && p[i] == 1u8;
        assert(p[i] & mask == 0);
    }
    if bits & 2u8 != 0 {
        let i = choose|i: int| 0 <= i < p.len() && p[i] == 2u8;
        assert(p[i] & mask == 0);
    }
    if r != 0 {
        let i = choose|i: int| 0 <= i < p.len() && p[i] == r;
        assert(p[i] & mask == 0);
    }
    assert(bits & mask == 0) by (bit_vector)
        requires
            bits & 1u8 != 0 ==> 1u8 & mask == 0,
            bits & 2u8 != 0 ==> 2u8 & mask == 0,
            bits & !0b11u8 != 0 ==> (bits & !0b11u8) & mask == 0,
    ;
}

/// The parts of a set, case by case.
proof fn flag_parts_cases(bits: u8)
    ensures
        forall|i: int| 0 <= i < flag_parts(bits).len() ==> #[trigger] flag_parts(bits)[i] != 0
            && bits & flag_parts(bits)[i] == flag_parts(bits)[i],
        forall|i: int, j: int|
            0 <= i < j < flag_parts(bits).len() ==> #[trigger] flag_parts(bits)[i]
                & #[trigger] flag_parts(bits)[j] == 0,
        flag_parts(bits).contains(0b1u8) <==> bits & 0b1u8 != 0,
        flag_parts(bits).contains(0b10u8) <==> bits & 0b10u8 != 0,
        bits & !0b11u8 != 0 <==> flag_parts(bits).contains(bits & !0b11u8),
{
    let p = flag_parts(bits);
    let r = bits & !0b11u8;
    let (c1, c2, c3) = (bits & 1u8 != 0, bits & 2u8 != 0, r != 0);
    assert(1u8 | 2u8 == 0b11u8) by (bit_vector);
    assert(all_bits() == 0b11u8);
    assert(bits & 1u8 != 0 ==> bits & 1u8 == 1u8) by (bit_vector);
    assert(bits & 2u8 != 0 ==> bits & 2u8 == 2u8) by (bit_vector);
    assert(bits & r == r && 1u8 & r == 0 && 2u8 & r == 0 && r & 1u8 == 0 && r & 2u8 == 0
        && r != 1u8 && r != 2u8 && 1u8 & 2u8 == 0 && 2u8 & 1u8 == 0) by (bit_vector)
        requires
            r == bits & !0b11u8,
    ;
    let named = named_flags(bits);
    if c1 {
        if c2 {
            assert(named =~= seq![("V2PreviewSyntax"@, 1u8), ("PreviewQirGen"@, 2u8)]);
            if c3 {
                assert(p =~= seq![1u8, 2u8, r]);
            } else {
                assert(p =~= seq![1u8, 2u8]);
            }
        } else {
            assert(named =~= seq![("V2PreviewSyntax"@, 1u8)]);
            if c3 {
                assert(p =~= seq![1u8, r]);
            } else {
                assert(p =~= seq![1u8]);
            }
        }
    } else {
        if c2 {
            assert(named =~= seq![("PreviewQirGen"@, 2u8)]);
            if c3 {
                assert(p =~= seq![2u8, r]);
            } else {
                assert(p =~= seq![2u8]);
            }
        } else {
            assert(named =~= Seq::<(Seq<char>, u8)>::empty());
            if c3 {
                assert(p =~= seq![r]);
            } else {
                assert(p =~= Seq::<u8>::empty());
            }
        }
    }
    if c1 {
        assert(p[0] == 1u8);
    } else {
        assert forall|i: int| 0 <= i < p.len() implies p[i] != 1u8 by {}
    }
    if c2 {
        if c1 {
            assert(p[1] == 2u8);
        } else {
            assert(p[0] == 2u8);
        }
    } else {
        assert forall|i: int| 0 <= i < p.len() implies p[i] != 2u8 by {}
    }
    if c3 {
        assert(p[p.len() - 1] == r);
    } else {
        assert forall|i: int| 0 <= i < p.len() implies p[i] != r by {}
    }
}

/// The text seen for a list of names is each name's own text, in the same order.
pub proof fn names_view_is_each_name(names: Seq<&str>)
    ensures
        names_view(names).len() == names.len(),
        forall|i: int| 0 <= i < names.len() ==> names_view(names)[i] == (#[trigger] names[i])@,
{
}

/// A list of names selects the syntax preview exactly where one of its names is
/// `"v2-preview-syntax"`, the QIR generation preview exactly where one of them is
/// `"preview-qir-gen"`, and nothing else.
pub proof fn from_iter_selects_listed_features(names: Seq<&str>)
    ensures
        names_bits(names_view(names)) == (if exists|i: int|
            0 <= i < names.len() && (#[trigger] names[i])@ == "v2-preview-syntax"@ {
            0b1u8
        } else {
            0u8
        }) | (if exists|i: int|
            0 <= i < names.len() && (#[trigger] names[i])@ == "preview-qir-gen"@ {
            0b10u8
        } else {
            0u8
        }),
{
    let view = names_view(names);
    names_bits_closed_form(view);
    let v2 = v2_preview_syntax_name();
    let qir = preview_qir_gen_name();
    if view.contains(v2) {
        let i = choose|i: int| 0 <= i < view.len() && view[i] == v2;
        assert(names[i]@ == "v2-preview-syntax"@);
    }
    if exists|i: int| 0 <= i < names.len() && (#[trigger] names[i])@ == "v2-preview-syntax"@ {
        let i = choose|i: int| 0 <= i < names.len() && (#[trigger] names[i])@ == "v2-preview-syntax"@;
        assert(view[i] == v2);
    }
    if view.contains(qir) {
        let i = choose|i: int| 0 <= i < view.len() && view[i] == qir;
        assert(names[i]@ == "preview-qir-gen"@);
    }
    if exists|i: int| 0 <= i < names.len() && (#[trigger] names[i])@ == "preview-qir-gen"@ {
        let i = choose|i: int| 0 <= i < names.len() && (#[trigger] names[i])@ == "preview-qir-gen"@;
        assert(view[i] == qir);
    }
}

} // verus!
