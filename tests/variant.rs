use com_dispatch::variant::{bool_from_word, bool_word, Variant};
use windows::Win32::Foundation::{VARIANT_FALSE, VARIANT_TRUE};
use windows::Win32::System::Com::{VT_ARRAY, VT_BOOL, VT_BSTR, VT_BYREF, VT_I4, VT_NULL, VT_VARIANT};

#[test]
fn null_carries_vt_null() {
    let v = Variant::null();
    assert_eq!(v, Variant::Null);
    assert_eq!(v.vartype(), VT_NULL.0);
}

#[test]
fn from_i32_carries_vt_i4() {
    let v = Variant::from_i32(-7);
    assert_eq!(v, Variant::I4(-7));
    assert_eq!(v.vartype(), VT_I4.0);
    assert_eq!(v.vartype(), 3);
}

#[test]
fn from_str_keeps_the_text() {
    let v = Variant::from_str("ボタンを押してね");
    assert_eq!(v, Variant::Bstr("ボタンを押してね".to_string()));
    assert_eq!(v.vartype(), VT_BSTR.0);
}

#[test]
fn from_str_of_empty_text() {
    let v = Variant::from_str("");
    assert_eq!(v, Variant::Bstr(String::new()));
    assert_eq!(v.vartype(), 8);
}

#[test]
fn from_bool_carries_vt_bool() {
    assert_eq!(Variant::from_bool(true), Variant::Bool(true));
    assert_eq!(Variant::from_bool(false), Variant::Bool(false));
    assert_eq!(Variant::from_bool(true).vartype(), VT_BOOL.0);
}

#[test]
fn by_ref_is_byref_variant() {
    let v = Variant::by_ref(0x1000);
    assert_eq!(v, Variant::VariantRef(0x1000));
    assert_eq!(v.vartype(), VT_BYREF.0 | VT_VARIANT.0);
    assert_eq!(v.vartype(), 0x400c);
}

#[test]
fn from_safearray_is_array_of_variants() {
    let v = Variant::from_safearray(0x2000);
    assert_eq!(v, Variant::VariantArray(0x2000));
    assert_eq!(v.vartype(), VT_ARRAY.0 | VT_VARIANT.0);
    assert_eq!(v.vartype(), 0x200c);
}

#[test]
fn bool_word_matches_variant_bool_constants() {
    assert_eq!(bool_word(true), VARIANT_TRUE.0);
    assert_eq!(bool_word(false), VARIANT_FALSE.0);
    assert_eq!(bool_word(true), -1);
    assert_eq!(bool_word(false), 0);
}

#[test]
fn bool_from_word_reads_any_nonzero_as_true() {
    assert!(bool_from_word(-1));
    assert!(bool_from_word(1));
    assert!(bool_from_word(i16::MIN));
    assert!(!bool_from_word(0));
}

#[test]
fn bool_word_round_trips() {
    assert!(bool_from_word(bool_word(true)));
    assert!(!bool_from_word(bool_word(false)));
}
