use k4rust::object::{carries_text, Access, CopyPlan, KFields, KSnapshot};

fn obj(t: i8) -> KFields {
    KFields { t, r: 0, n: 0, g: 0, h: 0, i: 0, j: 0, text: None }
}

fn snap(f: KFields) -> KSnapshot {
    KSnapshot { fields: Some(f) }
}

#[test]
fn test_null_k_safety() {
    let null_k = KSnapshot::null();
    assert_eq!(null_k.t(), 0);
    assert_eq!(null_k.type_code(), 0);
    assert_eq!(null_k.n(), 0);
    assert_eq!(null_k.r(), 0);
    assert_eq!(null_k.g(), 0);
    assert_eq!(null_k.h(), 0);
    assert_eq!(null_k.i(), 0);
    assert_eq!(null_k.j(), 0);
    assert_eq!(null_k.len(), 0);
    assert!(null_k.is_null());
    assert!(!null_k.is_error());
    assert!(!null_k.make_mut_copies());
    assert_eq!(null_k.copy_plan(), CopyPlan::Null);
}

#[test]
fn test_is_null_and_is_error() {
    // `ki(42)` as read through its handle.
    let normal = snap(KFields { i: 42, ..obj(-6) });
    assert!(!normal.is_null());
    assert!(!normal.is_error());

    let null = KSnapshot::null();
    assert!(null.is_null());
    assert!(!null.is_error());
}

#[test]
fn test_debug_formatting() {
    let null_k = KSnapshot::null();
    assert_eq!(null_k.describe().unwrap(), "K(null)");

    let int_k = snap(KFields { i: 42, ..obj(-6) });
    assert_eq!(int_k.describe().unwrap(), "K(int: 42)");

    let long_k = snap(KFields { j: 100, n: 100, ..obj(-7) });
    assert_eq!(long_k.describe().unwrap(), "K(long: 100)");

    let bool_k = snap(KFields { g: 1, ..obj(-1) });
    assert_eq!(bool_k.describe().unwrap(), "K(bool: true)");

    let vec_k = snap(KFields { n: 3, ..obj(6) });
    assert_eq!(vec_k.describe().unwrap(), "K(vector type=6 len=3)");

    let mixed_k = snap(KFields { n: 2, ..obj(0) });
    assert_eq!(mixed_k.describe().unwrap(), "K(mixed list len=2)");

    let dict = snap(obj(99));
    assert_eq!(dict.describe().unwrap(), "K(dict)");
}

#[test]
fn accessors_read_the_fields() {
    let v = snap(KFields { t: 7, n: 100, ..obj(7) });
    assert_eq!(v.n(), 100);
    assert_eq!(v.len(), 100);
    let k = snap(KFields { t: -7, r: 2, n: 100, g: 1, h: 3, i: 4, j: 100, text: None });
    assert_eq!(k.t(), -7);
    assert_eq!(k.r(), 2);
    assert_eq!(k.g(), 1);
    assert_eq!(k.h(), 3);
    assert_eq!(k.i(), 4);
    assert_eq!(k.j(), 100);
    assert!(!k.is_null());
    assert!(!k.is_error());
    assert!(snap(obj(-128)).is_error());
}

#[test]
fn describe_matches_debug_texts() {
    assert_eq!(KSnapshot::null().describe().unwrap(), "K(null)");
    assert_eq!(snap(KFields { i: 42, ..obj(-6) }).describe().unwrap(), "K(int: 42)");
    assert_eq!(snap(KFields { j: 100, ..obj(-7) }).describe().unwrap(), "K(long: 100)");
    assert_eq!(snap(KFields { g: 1, ..obj(-1) }).describe().unwrap(), "K(bool: true)");
    assert_eq!(snap(KFields { g: 0, ..obj(-1) }).describe().unwrap(), "K(bool: false)");
    assert_eq!(snap(KFields { n: 3, ..obj(6) }).describe().unwrap(), "K(vector type=6 len=3)");
    assert_eq!(snap(KFields { n: 2, ..obj(0) }).describe().unwrap(), "K(mixed list len=2)");
    assert_eq!(snap(obj(99)).describe().unwrap(), "K(dict)");
    assert_eq!(snap(obj(98)).describe().unwrap(), "K(table)");
    assert_eq!(snap(KFields { g: 200, ..obj(-4) }).describe().unwrap(), "K(byte: 200)");
    assert_eq!(snap(KFields { h: -5, ..obj(-5) }).describe().unwrap(), "K(short: -5)");
    assert_eq!(snap(obj(-14)).describe().unwrap(), "K(atom type=-14)");
    assert!(snap(obj(-8)).describe().is_none());
    assert!(snap(obj(-9)).describe().is_none());
}

#[test]
fn describe_chars_as_debug_prints_them() {
    assert_eq!(snap(KFields { g: b'a', ..obj(-10) }).describe().unwrap(), "K(char: 'a')");
    assert_eq!(snap(KFields { g: b'\n', ..obj(-10) }).describe().unwrap(), "K(char: '\\n')");
    assert_eq!(snap(KFields { g: b'\'', ..obj(-10) }).describe().unwrap(), "K(char: '\\'')");
    assert_eq!(
        snap(KFields { g: 0xe9, ..obj(-10) }).describe().unwrap(),
        format!("K(char: {:?})", 0xe9u8 as char)
    );
}

#[test]
fn describe_symbols_and_errors() {
    assert!(carries_text(-11));
    assert!(carries_text(-128));
    assert!(!carries_text(-6));
    let sym = KFields { text: Some(b"abc".to_vec()), ..obj(-11) };
    assert_eq!(snap(sym).describe().unwrap(), "K(symbol: `abc)");
    let bad = KFields { text: Some(vec![0xff, 0x61]), ..obj(-11) };
    assert_eq!(snap(bad).describe().unwrap(), "K(symbol: `<invalid>)");
    assert_eq!(snap(obj(-11)).describe().unwrap(), "K(symbol: `<null>)");
    let err = KFields { text: Some(b"type".to_vec()), ..obj(-128) };
    assert_eq!(snap(err).describe().unwrap(), "K(error: \"type\")");
    let uni = KFields { text: Some("é".as_bytes().to_vec()), ..obj(-128) };
    assert_eq!(snap(uni).describe().unwrap(), "K(error: \"é\")");
    assert_eq!(snap(obj(-128)).describe().unwrap(), "K(error: \"<null>\")");
}

#[test]
fn copy_plans_follow_the_type() {
    assert_eq!(snap(obj(-6)).copy_plan(), CopyPlan::Share);
    assert_eq!(snap(KFields { n: 2, ..obj(0) }).copy_plan(), CopyPlan::Elements(2));
    assert_eq!(snap(obj(99)).copy_plan(), CopyPlan::Dictionary);
    assert_eq!(snap(obj(98)).copy_plan(), CopyPlan::Table);
    assert_eq!(snap(KFields { n: 100, ..obj(7) }).copy_plan(), CopyPlan::Bytes(7, 100, 800));
    assert_eq!(snap(KFields { n: 3, ..obj(2) }).copy_plan(), CopyPlan::Bytes(2, 3, 48));
    assert_eq!(snap(KFields { n: 3, ..obj(6) }).copy_plan(), CopyPlan::Bytes(6, 3, 12));
}

#[test]
fn make_mut_copies_only_shared_objects() {
    assert!(!snap(KFields { r: 0, ..obj(6) }).make_mut_copies());
    assert!(snap(KFields { r: 1, ..obj(6) }).make_mut_copies());
    assert!(snap(KFields { r: 5, ..obj(0) }).make_mut_copies());
}

#[test]
fn atoms_and_tables_refuse_counts_and_slices() {
    // `kf(1.0)` as read through its handle.
    let f = snap(KFields { j: 4607182418800017408, n: 4607182418800017408, ..obj(-9) });
    assert_eq!(f.access_refusal(Access::Count), Some("n() called on an atom"));
    assert_eq!(f.len(), 4607182418800017408usize);
    assert_eq!(f.access_refusal(Access::Slice), Some("Slicing method called on an atom"));
    let table = snap(obj(98));
    assert_eq!(table.access_refusal(Access::Count), Some("n() called on a table"));
    assert_eq!(table.access_refusal(Access::Slice), Some("Slicing method called on a table"));
    for t in [0i8, 1, 6, 11, 19, 99] {
        assert_eq!(snap(obj(t)).access_refusal(Access::Count), None);
        assert_eq!(snap(obj(t)).access_refusal(Access::Slice), None);
    }
    assert_eq!(KSnapshot::null().access_refusal(Access::Slice), None);
}

#[test]
fn copies_are_defined_for_sound_lengths() {
    assert!(KSnapshot::null().can_copy());
    assert!(snap(obj(-6)).can_copy());
    assert!(snap(obj(98)).can_copy());
    assert!(snap(KFields { n: 3, ..obj(6) }).can_copy());
    assert!(!snap(KFields { n: -1, ..obj(6) }).can_copy());
    assert!(!snap(KFields { n: -1, ..obj(0) }).can_copy());
    assert!(!snap(KFields { n: i64::MAX, ..obj(7) }).can_copy());
    assert!(snap(KFields { n: i64::MAX, ..obj(1) }).can_copy() == (usize::MAX as u128 >= i64::MAX as u128));
}
