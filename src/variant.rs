//! The values that travel through `IDispatch` as `VARIANT`s, and the
//! `VARTYPE` tag that each of them carries on the wire.
use vstd::prelude::*;

verus! {

/// `VT_NULL`: SQL-style null.
pub const VT_NULL: u16 = 1;

/// `VT_I4`: a 32-bit signed integer.
pub const VT_I4: u16 = 3;

/// `VT_BSTR`: a length-prefixed UTF-16 string.
pub const VT_BSTR: u16 = 8;

/// `VT_BOOL`: a `VARIANT_BOOL`.
pub const VT_BOOL: u16 = 11;

/// `VT_VARIANT`: the element type "another variant".
pub const VT_VARIANT: u16 = 12;

/// `VT_ARRAY`: modifier bit for a `SAFEARRAY` of the base type.
pub const VT_ARRAY: u16 = 0x2000;

/// `VT_BYREF`: modifier bit for a pointer to the base type.
pub const VT_BYREF: u16 = 0x4000;

/// `VARIANT_TRUE`, the one word that stands for true.
pub const VARIANT_TRUE: i16 = -1;

/// `VARIANT_FALSE`.
pub const VARIANT_FALSE: i16 = 0;

/// A value that the binding can hand to a COM object.
///
/// The two reference kinds carry the address of memory that the host owns
/// (a `VARIANT` to be written through, or a `SAFEARRAY` of variants); the
/// library never reads through them.
#[derive(Clone, Debug, PartialEq, Eq)]
pub enum Variant {
    Null,
    I4(i32),
    Bstr(String),
    Bool(bool),
    VariantRef(usize),
    VariantArray(usize),
}

/// The `VARTYPE` tag written in front of the payload of `v`.
pub open spec fn vartype_of(v: Variant) -> u16 {
    match v {
        Variant::Null => VT_NULL,
        Variant::I4(_) => VT_I4,
        Variant::Bstr(_) => VT_BSTR,
        Variant::Bool(_) => VT_BOOL,
        Variant::VariantRef(_) => (VT_BYREF | VT_VARIANT) as u16,
        Variant::VariantArray(_) => (VT_ARRAY | VT_VARIANT) as u16,
    }
}

/// The `VARIANT_BOOL` word that encodes `b`.
pub open spec fn bool_word_of(b: bool) -> i16 {
    if b {
        VARIANT_TRUE
    } else {
        VARIANT_FALSE
    }
}

/// Relies on windows' `From<bool> for VARIANT_BOOL`: `VARIANT_TRUE` for
/// true, `VARIANT_FALSE` for false.
#[verifier::external_body]
fn variant_bool_from(b: bool) -> (r: i16)
    ensures
        r == bool_word_of(b),
{
    windows::Win32::Foundation::VARIANT_BOOL::from(b).0
}

/// Relies on windows' `VARIANT_BOOL::as_bool`: every nonzero word reads as
/// true.
#[verifier::external_body]
fn variant_bool_as_bool(w: i16) -> (r: bool)
    ensures
        r == (w != 0),
{
    windows::Win32::Foundation::VARIANT_BOOL(w).as_bool()
}

/// The `VARIANT_BOOL` word for `b`: -1 for true, 0 for false.
pub fn bool_word(b: bool) -> (r: i16)
    ensures
        r == bool_word_of(b),
        b ==> r == -1,
        !b ==> r == 0,
{
    variant_bool_from(b)
}

/// Reads a `VARIANT_BOOL` word: any nonzero word is true, as Automation
/// servers may hand back 1 as well as `VARIANT_TRUE`.
pub fn bool_from_word(w: i16) -> (r: bool)
    ensures
        r <==> w != VARIANT_FALSE,
{
    variant_bool_as_bool(w)
}

/// Reading back the `VARIANT_BOOL` word of a boolean gives that boolean:
/// what `bool_from_word` returns on `bool_word(b)` is `b`.
pub proof fn lemma_bool_word_round_trip(b: bool)
    ensures
        (bool_word_of(b) != VARIANT_FALSE) == b,
{
}

impl Variant {
    /// A `VT_NULL` variant.
    pub fn null() -> (r: Variant)
        ensures
            r == Variant::Null,
            vartype_of(r) == VT_NULL,
    {
        Variant::Null
    }

    /// A `VT_BYREF | VT_VARIANT` variant that refers to the variant at
    /// `target`, for arguments passed by reference.
    pub fn by_ref(target: usize) -> (r: Variant)
        ensures
            r == Variant::VariantRef(target),
            vartype_of(r) == 0x400c,
    {
        proof {
            assert((VT_BYREF | VT_VARIANT) == 0x400c) by (bit_vector);
        }
        Variant::VariantRef(target)
    }

    /// A `VT_I4` variant holding `n`.
    pub fn from_i32(n: i32) -> (r: Variant)
        ensures
            r == Variant::I4(n),
            vartype_of(r) == VT_I4,
    {
        Variant::I4(n)
    }

    /// A `VT_BSTR` variant holding the text `s`.
    pub fn from_str(s: &str) -> (r: Variant)
        ensures
            r matches Variant::Bstr(t) && t@ == s@,
            vartype_of(r) == VT_BSTR,
    {
        Variant::Bstr(s.to_string())
    }

    /// A `VT_BOOL` variant holding `b`.
    pub fn from_bool(b: bool) -> (r: Variant)
        ensures
            r == Variant::Bool(b),
            vartype_of(r) == VT_BOOL,
    {
        Variant::Bool(b)
    }

    /// A `VT_ARRAY | VT_VARIANT` variant for the `SAFEARRAY` at `array`.
    pub fn from_safearray(array: usize) -> (r: Variant)
        ensures
            r == Variant::VariantArray(array),
            vartype_of(r) == 0x200c,
    {
        proof {
            assert((VT_ARRAY | VT_VARIANT) == 0x200c) by (bit_vector);
        }
        Variant::VariantArray(array)
    }

    /// The `VARTYPE` tag of this variant.
    pub fn vartype(&self) -> (r: u16)
        ensures
            r == vartype_of(*self),
    {
        match self {
            Variant::Null => VT_NULL,
            Variant::I4(_) => VT_I4,
            Variant::Bstr(_) => VT_BSTR,
            Variant::Bool(_) => VT_BOOL,
            Variant::VariantRef(_) => VT_BYREF | VT_VARIANT,
            Variant::VariantArray(_) => VT_ARRAY | VT_VARIANT,
        }
    }
}

} // verus!
