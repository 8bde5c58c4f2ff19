use qsc_data_structures::LanguageFeatures;

#[test]
fn default_is_empty() {
    let d = LanguageFeatures::default();
    assert_eq!(d, LanguageFeatures::empty());
    assert_eq!(d.bits(), 0);
    assert!(d.is_empty());
}

#[test]
fn flag_values() {
    assert_eq!(LanguageFeatures::V2PreviewSyntax().bits(), 0b1);
    assert_eq!(LanguageFeatures::PreviewQirGen().bits(), 0b10);
    assert_eq!(LanguageFeatures::all().bits(), 0b11);
}

#[test]
fn merge_adds_flags() {
    let mut f = LanguageFeatures::V2PreviewSyntax();
    f.merge(LanguageFeatures::PreviewQirGen());
    assert_eq!(f.bits(), 0b11);
    assert!(f.contains(LanguageFeatures::V2PreviewSyntax()));
    assert!(f.contains(LanguageFeatures::PreviewQirGen()));
    assert!(f.is_all());
}

#[test]
fn merge_keeps_unnamed_bits() {
    let mut f = LanguageFeatures::from_bits_retain(0b1000_0000);
    f.merge(LanguageFeatures::from_bits_retain(0b0100_0001));
    assert_eq!(f.bits(), 0b1100_0001);
}

#[test]
fn merge_is_commutative_idempotent_and_has_identity() {
    let a = LanguageFeatures::from_bits_retain(0b0101);
    let b = LanguageFeatures::from_bits_retain(0b0011);
    let mut ab = a;
    ab.merge(b);
    let mut ba = b;
    ba.merge(a);
    assert_eq!(ab, ba);
    let mut aa = a;
    aa.merge(a);
    assert_eq!(aa, a);
    let mut ae = a;
    ae.merge(LanguageFeatures::default());
    assert_eq!(ae, a);
    let mut ea = LanguageFeatures::default();
    ea.merge(a);
    assert_eq!(ea, a);
}

#[test]
fn merge_is_associative() {
    let a = LanguageFeatures::from_bits_retain(0b0001);
    let b = LanguageFeatures::from_bits_retain(0b0110);
    let c = LanguageFeatures::from_bits_retain(0b1100);
    let mut left = a;
    left.merge(b);
    left.merge(c);
    let mut bc = b;
    bc.merge(c);
    let mut right = a;
    right.merge(bc);
    assert_eq!(left, right);
    assert_eq!(left.bits(), 0b1111);
}

#[test]
fn from_feature_name_known_and_unknown() {
    assert_eq!(LanguageFeatures::from_feature_name("v2-preview-syntax"), LanguageFeatures::V2PreviewSyntax());
    assert_eq!(LanguageFeatures::from_feature_name("preview-qir-gen"), LanguageFeatures::PreviewQirGen());
    assert_eq!(LanguageFeatures::from_feature_name("other"), LanguageFeatures::empty());
    assert_eq!(LanguageFeatures::from_feature_name(""), LanguageFeatures::empty());
    assert_eq!(LanguageFeatures::from_feature_name("V2-preview-syntax"), LanguageFeatures::empty());
    assert_eq!(LanguageFeatures::from_feature_name("v2-preview-syntax "), LanguageFeatures::empty());
}

#[test]
fn from_iter_empty_list() {
    let names: [&str; 0] = [];
    assert_eq!(LanguageFeatures::from_iter(&names), LanguageFeatures::empty());
}

#[test]
fn from_iter_one_feature() {
    let f = LanguageFeatures::from_iter(&["v2-preview-syntax"]);
    assert_eq!(f, LanguageFeatures::V2PreviewSyntax());
    let g = LanguageFeatures::from_iter(&["preview-qir-gen"]);
    assert_eq!(g, LanguageFeatures::PreviewQirGen());
}

#[test]
fn from_iter_both_features_any_order() {
    let f = LanguageFeatures::from_iter(&["v2-preview-syntax", "preview-qir-gen"]);
    let g = LanguageFeatures::from_iter(&["preview-qir-gen", "v2-preview-syntax"]);
    assert_eq!(f.bits(), 0b11);
    assert_eq!(f, g);
}

#[test]
fn from_iter_ignores_unknown_and_repeats() {
    let f = LanguageFeatures::from_iter(&["unknown", "v2-preview-syntax", "x", "v2-preview-syntax"]);
    assert_eq!(f, LanguageFeatures::V2PreviewSyntax());
    let g = LanguageFeatures::from_iter(&["unknown", "also-unknown"]);
    assert!(g.is_empty());
}

#[test]
fn from_iter_of_joined_lists_is_merge() {
    let a = ["preview-qir-gen", "zzz"];
    let b = ["v2-preview-syntax"];
    let joined = ["preview-qir-gen", "zzz", "v2-preview-syntax"];
    let mut merged = LanguageFeatures::from_iter(&a);
    merged.merge(LanguageFeatures::from_iter(&b));
    assert_eq!(LanguageFeatures::from_iter(&joined), merged);
}

#[test]
fn bits_constructors() {
    assert_eq!(LanguageFeatures::from_bits_retain(0xff).bits(), 0xff);
    assert_eq!(LanguageFeatures::from_bits_truncate(0xff).bits(), 0b11);
    assert_eq!(LanguageFeatures::from_bits(0b10), Some(LanguageFeatures::PreviewQirGen()));
    assert_eq!(LanguageFeatures::from_bits(0b100), None);
    assert_eq!(LanguageFeatures::from_bits(0), Some(LanguageFeatures::empty()));
}

#[test]
fn set_operations() {
    let a = LanguageFeatures::from_bits_retain(0b0110);
    let b = LanguageFeatures::from_bits_retain(0b0011);
    assert_eq!(a.union(b).bits(), 0b0111);
    assert_eq!(a.intersection(b).bits(), 0b0010);
    assert_eq!(a.difference(b).bits(), 0b0100);
    assert!(a.intersects(b));
    assert!(!a.intersects(LanguageFeatures::from_bits_retain(0b1000)));
    assert!(!a.contains(b));
    assert!(a.contains(LanguageFeatures::from_bits_retain(0b0100)));
    assert!(!LanguageFeatures::V2PreviewSyntax().is_all());
}

#[test]
fn insert_and_remove() {
    let mut f = LanguageFeatures::empty();
    f.insert(LanguageFeatures::PreviewQirGen());
    assert_eq!(f.bits(), 0b10);
    f.insert(LanguageFeatures::V2PreviewSyntax());
    assert_eq!(f.bits(), 0b11);
    f.remove(LanguageFeatures::PreviewQirGen());
    assert_eq!(f, LanguageFeatures::V2PreviewSyntax());
    f.remove(LanguageFeatures::PreviewQirGen());
    assert_eq!(f, LanguageFeatures::V2PreviewSyntax());
}

#[test]
fn ordering_follows_bits() {
    assert!(LanguageFeatures::V2PreviewSyntax() < LanguageFeatures::PreviewQirGen());
    assert!(LanguageFeatures::empty() < LanguageFeatures::V2PreviewSyntax());
}

#[test]
fn from_name_takes_identifiers() {
    assert_eq!(LanguageFeatures::from_name("V2PreviewSyntax"), Some(LanguageFeatures::V2PreviewSyntax()));
    assert_eq!(LanguageFeatures::from_name("PreviewQirGen"), Some(LanguageFeatures::PreviewQirGen()));
    assert_eq!(LanguageFeatures::from_name("v2-preview-syntax"), None);
    assert_eq!(LanguageFeatures::from_name(""), None);
    assert_eq!(LanguageFeatures::from_name("v2previewsyntax"), None);
}

#[test]
fn toggle_and_set() {
    let mut f = LanguageFeatures::V2PreviewSyntax();
    f.toggle(LanguageFeatures::all());
    assert_eq!(f, LanguageFeatures::PreviewQirGen());
    f.toggle(LanguageFeatures::PreviewQirGen());
    assert!(f.is_empty());
    f.set(LanguageFeatures::V2PreviewSyntax(), true);
    assert_eq!(f, LanguageFeatures::V2PreviewSyntax());
    f.set(LanguageFeatures::V2PreviewSyntax(), false);
    assert!(f.is_empty());
}

#[test]
fn symmetric_difference_and_complement() {
    let a = LanguageFeatures::from_bits_retain(0b0110);
    let b = LanguageFeatures::from_bits_retain(0b0011);
    assert_eq!(a.symmetric_difference(b).bits(), 0b0101);
    assert_eq!(LanguageFeatures::V2PreviewSyntax().complement(), LanguageFeatures::PreviewQirGen());
    assert_eq!(LanguageFeatures::from_bits_retain(0xf0).complement(), LanguageFeatures::all());
    assert_eq!(LanguageFeatures::all().complement(), LanguageFeatures::empty());
}

#[test]
fn operators() {
    let a = LanguageFeatures::from_bits_retain(0b0110);
    let b = LanguageFeatures::from_bits_retain(0b0011);
    assert_eq!((a | b).bits(), 0b0111);
    assert_eq!((a & b).bits(), 0b0010);
    assert_eq!((a ^ b).bits(), 0b0101);
    assert_eq!((a - b).bits(), 0b0100);
    assert_eq!((!a).bits(), 0b0001);
    let mut c = a;
    c |= b;
    assert_eq!(c.bits(), 0b0111);
    c &= LanguageFeatures::from_bits_retain(0b0101);
    assert_eq!(c.bits(), 0b0101);
    c ^= LanguageFeatures::from_bits_retain(0b0011);
    assert_eq!(c.bits(), 0b0110);
    c -= LanguageFeatures::from_bits_retain(0b0010);
    assert_eq!(c.bits(), 0b0100);
}

#[test]
fn extend_with_sets() {
    let mut f = LanguageFeatures::from_bits_retain(0b1000);
    f.extend(&[LanguageFeatures::V2PreviewSyntax(), LanguageFeatures::from_bits_retain(0b0100)]);
    assert_eq!(f.bits(), 0b1101);
    f.extend(&[]);
    assert_eq!(f.bits(), 0b1101);
}

#[test]
fn iter_names_and_parts() {
    let f = LanguageFeatures::from_bits_retain(0b1000_0011);
    assert_eq!(
        f.iter_names(),
        vec![("V2PreviewSyntax", LanguageFeatures::V2PreviewSyntax()), ("PreviewQirGen", LanguageFeatures::PreviewQirGen())]
    );
    assert_eq!(
        f.iter(),
        vec![LanguageFeatures::V2PreviewSyntax(), LanguageFeatures::PreviewQirGen(), LanguageFeatures::from_bits_retain(0b1000_0000)]
    );
    let g = LanguageFeatures::PreviewQirGen();
    assert_eq!(g.iter_names(), vec![("PreviewQirGen", LanguageFeatures::PreviewQirGen())]);
    assert_eq!(g.iter(), vec![LanguageFeatures::PreviewQirGen()]);
    assert!(LanguageFeatures::empty().iter().is_empty());
    assert!(LanguageFeatures::empty().iter_names().is_empty());
}

#[test]
fn same_bits_same_set() {
    assert_eq!(LanguageFeatures::from_bits_retain(1), LanguageFeatures::V2PreviewSyntax());
    assert_eq!(LanguageFeatures::from_bits_truncate(0b110), LanguageFeatures::PreviewQirGen());
}
