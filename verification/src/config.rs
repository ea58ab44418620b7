//! The scalar configuration values a subscription can carry.

use vstd::prelude::*;
use vstd::std_specs::cmp::PartialEqSpec;
use vstd::std_specs::convert::FromSpec;
use vstd::string::StringExecFns;

use crate::text::{bool_to_str, i64_to_string, spec_bool_text, spec_dec_int};

verus! {

/// Whether a 64-bit floating-point bit pattern encodes a NaN: the exponent
/// field is all ones and the significand is not zero.
pub open spec fn spec_is_nan_bits(b: u64) -> bool {
    (b >> 52) & 0x7ff == 0x7ff && b & 0x000f_ffff_ffff_ffff != 0
}

/// Whether a 64-bit floating-point bit pattern encodes a zero (of either
/// sign): everything but the sign bit is zero.
pub open spec fn spec_is_zero_bits(b: u64) -> bool {
    b & 0x7fff_ffff_ffff_ffff == 0
}

/// Standard floating-point equality over 64-bit bit patterns: a NaN is
/// unequal to everything (itself included), the two zeros are equal to
/// each other, and any other pair is equal exactly when the patterns are.
pub open spec fn spec_float_bits_eq(a: u64, b: u64) -> bool {
    if spec_is_nan_bits(a) || spec_is_nan_bits(b) {
        false
    } else {
        a == b || (spec_is_zero_bits(a) && spec_is_zero_bits(b))
    }
}

fn float_bits_eq(a: u64, b: u64) -> (r: bool)
    ensures
        r == spec_float_bits_eq(a, b),
{
    let a_nan = (a >> 52) & 0x7ff == 0x7ff && a & 0x000f_ffff_ffff_ffff != 0;
    let b_nan = (b >> 52) & 0x7ff == 0x7ff && b & 0x000f_ffff_ffff_ffff != 0;
    if a_nan || b_nan {
        false
    } else {
        a == b || (a & 0x7fff_ffff_ffff_ffff == 0 && b & 0x7fff_ffff_ffff_ffff == 0)
    }
}

/// A scalar configuration value of a subscription's config mapping: one of
/// the closed set of shapes below. A narrower numeric value is widened
/// losslessly on conversion; once tagged, a value never coerces to
/// another variant.
#[derive(Clone, Debug)]
pub enum ConfigValue {
    /// A boolean value.
    Boolean(bool),
    /// A 64-bit floating-point value, stored as its bit pattern.
    /// Floating-point arithmetic, conversion and formatting stay outside
    /// this crate; equality on this variant follows the standard
    /// floating-point rules (see [`spec_float_bits_eq`]).
    Float(u64),
    /// A 64-bit signed integer value.
    Integer(i64),
    /// A string value.
    String(String),
}

/// Whether two configuration values carry the same tag.
pub open spec fn same_variant(a: ConfigValue, b: ConfigValue) -> bool {
    match (a, b) {
        (ConfigValue::Boolean(_), ConfigValue::Boolean(_)) => true,
        (ConfigValue::Float(_), ConfigValue::Float(_)) => true,
        (ConfigValue::Integer(_), ConfigValue::Integer(_)) => true,
        (ConfigValue::String(_), ConfigValue::String(_)) => true,
        _ => false,
    }
}

/// Equality of two configuration values: exact on tag and content, with
/// the stored floating-point bit patterns compared under the standard
/// floating-point rules. Differently-tagged values are never equal.
pub open spec fn spec_eq(a: ConfigValue, b: ConfigValue) -> bool {
    match (a, b) {
        (ConfigValue::Boolean(x), ConfigValue::Boolean(y)) => x == y,
        (ConfigValue::Float(x), ConfigValue::Float(y)) => spec_float_bits_eq(x, y),
        (ConfigValue::Integer(x), ConfigValue::Integer(y)) => x == y,
        (ConfigValue::String(x), ConfigValue::String(y)) => x@ == y@,
        _ => false,
    }
}

/// Equality of a configuration value against a raw integer: true exactly
/// for the integer variant holding that value.
pub open spec fn spec_eq_int(a: ConfigValue, n: int) -> bool {
    a matches ConfigValue::Integer(v) && v == n
}

/// Equality of a configuration value against a raw boolean: true exactly
/// for the boolean variant holding that value.
pub open spec fn spec_eq_bool(a: ConfigValue, b: bool) -> bool {
    a matches ConfigValue::Boolean(v) && v == b
}

/// Equality of a configuration value against raw text: true exactly for
/// the string variant holding those characters.
pub open spec fn spec_eq_text(a: ConfigValue, s: Seq<char>) -> bool {
    a matches ConfigValue::String(v) && v@ == s
}

/// The exact text a configuration value displays as, when one is defined
/// here: `true`/`false` for a boolean, the standard decimal form for an
/// integer, the raw content for a string (no quoting added). Rendering a
/// floating-point value needs floating-point formatting, which stays
/// outside this crate, so the float variant has no text here.
pub open spec fn spec_display_opt(a: ConfigValue) -> Option<Seq<char>> {
    match a {
        ConfigValue::Boolean(b) => Some(spec_bool_text(b)),
        ConfigValue::Float(_) => None,
        ConfigValue::Integer(i) => Some(spec_dec_int(i as int)),
        ConfigValue::String(s) => Some(s@),
    }
}

impl ConfigValue {
    /// A string configuration value holding the given text.
    pub fn from_text(s: &str) -> (r: ConfigValue)
        ensures
            spec_eq_text(r, s@),
    {
        ConfigValue::String(s.to_owned())
    }

    /// The textual form of this value, for the variants whose rendering is
    /// defined in this crate; `None` for the floating-point variant, whose
    /// formatting is the caller's concern.
    pub fn to_display_string(&self) -> (r: Option<String>)
        ensures
            match spec_display_opt(*self) {
                Some(t) => r matches Some(s) && s@ == t,
                None => r is None,
            },
    {
        match self {
            ConfigValue::Boolean(b) => Some(String::from_str(bool_to_str(*b))),
            ConfigValue::Float(_) => None,
            ConfigValue::Integer(i) => Some(i64_to_string(*i)),
            ConfigValue::String(s) => Some(s.clone()),
        }
    }
}

impl From<bool> for ConfigValue {
    fn from(value: bool) -> (r: ConfigValue) {
        ConfigValue::Boolean(value)
    }
}

impl vstd::std_specs::convert::FromSpecImpl<bool> for ConfigValue {
    open spec fn obeys_from_spec() -> bool {
        true
    }

    open spec fn from_spec(value: bool) -> ConfigValue {
        ConfigValue::Boolean(value)
    }
}

impl From<i8> for ConfigValue {
    fn from(value: i8) -> (r: ConfigValue) {
        ConfigValue::Integer(value as i64)
    }
}

impl vstd::std_specs::convert::FromSpecImpl<i8> for ConfigValue {
    open spec fn obeys_from_spec() -> bool {
        true
    }

    open spec fn from_spec(value: i8) -> ConfigValue {
        ConfigValue::Integer(value as i64)
    }
}

impl From<i16> for ConfigValue {
    fn from(value: i16) -> (r: ConfigValue) {
        ConfigValue::Integer(value as i64)
    }
}

impl vstd::std_specs::convert::FromSpecImpl<i16> for ConfigValue {
    open spec fn obeys_from_spec() -> bool {
        true
    }

    open spec fn from_spec(value: i16) -> ConfigValue {
        ConfigValue::Integer(value as i64)
    }
}

impl From<i32> for ConfigValue {
    fn from(value: i32) -> (r: ConfigValue) {
        ConfigValue::Integer(value as i64)
    }
}

impl vstd::std_specs::convert::FromSpecImpl<i32> for ConfigValue {
    open spec fn obeys_from_spec() -> bool {
        true
    }

    open spec fn from_spec(value: i32) -> ConfigValue {
        ConfigValue::Integer(value as i64)
    }
}

impl From<i64> for ConfigValue {
    fn from(value: i64) -> (r: ConfigValue) {
        ConfigValue::Integer(value)
    }
}

impl vstd::std_specs::convert::FromSpecImpl<i64> for ConfigValue {
    open spec fn obeys_from_spec() -> bool {
        true
    }

    open spec fn from_spec(value: i64) -> ConfigValue {
        ConfigValue::Integer(value)
    }
}

impl From<u8> for ConfigValue {
    fn from(value: u8) -> (r: ConfigValue) {
        ConfigValue::Integer(value as i64)
    }
}

impl vstd::std_specs::convert::FromSpecImpl<u8> for ConfigValue {
    open spec fn obeys_from_spec() -> bool {
        true
    }

    open spec fn from_spec(value: u8) -> ConfigValue {
        ConfigValue::Integer(value as i64)
    }
}

impl From<u16> for ConfigValue {
    fn from(value: u16) -> (r: ConfigValue) {
        ConfigValue::Integer(value as i64)
    }
}

impl vstd::std_specs::convert::FromSpecImpl<u16> for ConfigValue {
    open spec fn obeys_from_spec() -> bool {
        true
    }

    open spec fn from_spec(value: u16) -> ConfigValue {
        ConfigValue::Integer(value as i64)
    }
}

impl From<u32> for ConfigValue {
    fn from(value: u32) -> (r: ConfigValue) {
        ConfigValue::Integer(value as i64)
    }
}

impl vstd::std_specs::convert::FromSpecImpl<u32> for ConfigValue {
    open spec fn obeys_from_spec() -> bool {
        true
    }

    open spec fn from_spec(value: u32) -> ConfigValue {
        ConfigValue::Integer(value as i64)
    }
}

impl From<&str> for ConfigValue {
    fn from(value: &str) -> (r: ConfigValue) {
        ConfigValue::from_text(value)
    }
}

// A `String` value with the view of the argument cannot be named in spec
// code, so this conversion pins nothing down; callers in verified code use
// `ConfigValue::from_text`, whose contract is exact.
impl vstd::std_specs::convert::FromSpecImpl<&str> for ConfigValue {
    open spec fn obeys_from_spec() -> bool {
        false
    }

    open spec fn from_spec(value: &str) -> ConfigValue {
        arbitrary()
    }
}

impl From<String> for ConfigValue {
    fn from(value: String) -> (r: ConfigValue) {
        ConfigValue::String(value)
    }
}

impl vstd::std_specs::convert::FromSpecImpl<String> for ConfigValue {
    open spec fn obeys_from_spec() -> bool {
        true
    }

    open spec fn from_spec(value: String) -> ConfigValue {
        ConfigValue::String(value)
    }
}

impl PartialEq for ConfigValue {
    fn eq(&self, other: &ConfigValue) -> (r: bool) {
        match (self, other) {
            (ConfigValue::Boolean(a), ConfigValue::Boolean(b)) => *a == *b,
            (ConfigValue::Float(a), ConfigValue::Float(b)) => float_bits_eq(*a, *b),
            (ConfigValue::Integer(a), ConfigValue::Integer(b)) => *a == *b,
            (ConfigValue::String(a), ConfigValue::String(b)) => *a == *b,
            _ => false,
        }
    }
}

impl vstd::std_specs::cmp::PartialEqSpecImpl for ConfigValue {
    open spec fn obeys_eq_spec() -> bool {
        true
    }

    open spec fn eq_spec(&self, other: &ConfigValue) -> bool {
        spec_eq(*self, *other)
    }
}

impl PartialEq<bool> for ConfigValue {
    fn eq(&self, other: &bool) -> (r: bool) {
        match self {
            ConfigValue::Boolean(v) => *v == *other,
            _ => false,
        }
    }
}

impl vstd::std_specs::cmp::PartialEqSpecImpl<bool> for ConfigValue {
    open spec fn obeys_eq_spec() -> bool {
        true
    }

    open spec fn eq_spec(&self, other: &bool) -> bool {
        spec_eq_bool(*self, *other)
    }
}

impl PartialEq<i8> for ConfigValue {
    fn eq(&self, other: &i8) -> (r: bool) {
        match self {
            ConfigValue::Integer(v) => *v == *other as i64,
            _ => false,
        }
    }
}

impl vstd::std_specs::cmp::PartialEqSpecImpl<i8> for ConfigValue {
    open spec fn obeys_eq_spec() -> bool {
        true
    }

    open spec fn eq_spec(&self, other: &i8) -> bool {
        spec_eq_int(*self, *other as int)
    }
}

impl PartialEq<i16> for ConfigValue {
    fn eq(&self, other: &i16) -> (r: bool) {
        match self {
            ConfigValue::Integer(v) => *v == *other as i64,
            _ => false,
        }
    }
}

impl vstd::std_specs::cmp::PartialEqSpecImpl<i16> for ConfigValue {
    open spec fn obeys_eq_spec() -> bool {
        true
    }

    open spec fn eq_spec(&self, other: &i16) -> bool {
        spec_eq_int(*self, *other as int)
    }
}

impl PartialEq<i32> for ConfigValue {
    fn eq(&self, other: &i32) -> (r: bool) {
        match self {
            ConfigValue::Integer(v) => *v == *other as i64,
            _ => false,
        }
    }
}

impl vstd::std_specs::cmp::PartialEqSpecImpl<i32> for ConfigValue {
    open spec fn obeys_eq_spec() -> bool {
        true
    }

    open spec fn eq_spec(&self, other: &i32) -> bool {
        spec_eq_int(*self, *other as int)
    }
}

impl PartialEq<i64> for ConfigValue {
    fn eq(&self, other: &i64) -> (r: bool) {
        match self {
            ConfigValue::Integer(v) => *v == *other,
            _ => false,
        }
    }
}

impl vstd::std_specs::cmp::PartialEqSpecImpl<i64> for ConfigValue {
    open spec fn obeys_eq_spec() -> bool {
        true
    }

    open spec fn eq_spec(&self, other: &i64) -> bool {
        spec_eq_int(*self, *other as int)
    }
}

impl PartialEq<u8> for ConfigValue {
    fn eq(&self, other: &u8) -> (r: bool) {
        match self {
            ConfigValue::Integer(v) => *v == *other as i64,
            _ => false,
        }
    }
}

impl vstd::std_specs::cmp::PartialEqSpecImpl<u8> for ConfigValue {
    open spec fn obeys_eq_spec() -> bool {
        true
    }

    open spec fn eq_spec(&self, other: &u8) -> bool {
        spec_eq_int(*self, *other as int)
    }
}

impl PartialEq<u16> for ConfigValue {
    fn eq(&self, other: &u16) -> (r: bool) {
        match self {
            ConfigValue::Integer(v) => *v == *other as i64,
            _ => false,
        }
    }
}

impl vstd::std_specs::cmp::PartialEqSpecImpl<u16> for ConfigValue {
    open spec fn obeys_eq_spec() -> bool {
        true
    }

    open spec fn eq_spec(&self, other: &u16) -> bool {
        spec_eq_int(*self, *other as int)
    }
}

impl PartialEq<u32> for ConfigValue {
    fn eq(&self, other: &u32) -> (r: bool) {
        match self {
            ConfigValue::Integer(v) => *v == *other as i64,
            _ => false,
        }
    }
}

impl vstd::std_specs::cmp::PartialEqSpecImpl<u32> for ConfigValue {
    open spec fn obeys_eq_spec() -> bool {
        true
    }

    open spec fn eq_spec(&self, other: &u32) -> bool {
        spec_eq_int(*self, *other as int)
    }
}

impl PartialEq<&str> for ConfigValue {
    fn eq(&self, other: &&str) -> (r: bool) {
        match self {
            ConfigValue::String(v) => *v == String::from_str(*other),
            _ => false,
        }
    }
}

impl vstd::std_specs::cmp::PartialEqSpecImpl<&str> for ConfigValue {
    open spec fn obeys_eq_spec() -> bool {
        true
    }

    open spec fn eq_spec(&self, other: &&str) -> bool {
        spec_eq_text(*self, other@)
    }
}

impl PartialEq<String> for ConfigValue {
    fn eq(&self, other: &String) -> (r: bool) {
        match self {
            ConfigValue::String(v) => *v == *other,
            _ => false,
        }
    }
}

impl vstd::std_specs::cmp::PartialEqSpecImpl<String> for ConfigValue {
    open spec fn obeys_eq_spec() -> bool {
        true
    }

    open spec fn eq_spec(&self, other: &String) -> bool {
        spec_eq_text(*self, other@)
    }
}

/// Law: widening round trip. Converting a boolean or any supported narrow
/// numeric value into a `ConfigValue` and then comparing the result
/// against the original raw value with the typed equality always holds.
pub proof fn lemma_widening_round_trip(
    b: bool,
    v1: i8,
    v2: i16,
    v3: i32,
    v4: i64,
    v5: u8,
    v6: u16,
    v7: u32,
)
    ensures
        <ConfigValue as PartialEqSpec<bool>>::eq_spec(
            &<ConfigValue as FromSpec<bool>>::from_spec(b),
            &b,
        ),
        <ConfigValue as PartialEqSpec<i8>>::eq_spec(
            &<ConfigValue as FromSpec<i8>>::from_spec(v1),
            &v1,
        ),
        <ConfigValue as PartialEqSpec<i16>>::eq_spec(
            &<ConfigValue as FromSpec<i16>>::from_spec(v2),
            &v2,
        ),
        <ConfigValue as PartialEqSpec<i32>>::eq_spec(
            &<ConfigValue as FromSpec<i32>>::from_spec(v3),
            &v3,
        ),
        <ConfigValue as PartialEqSpec<i64>>::eq_spec(
            &<ConfigValue as FromSpec<i64>>::from_spec(v4),
            &v4,
        ),
        <ConfigValue as PartialEqSpec<u8>>::eq_spec(
            &<ConfigValue as FromSpec<u8>>::from_spec(v5),
            &v5,
        ),
        <ConfigValue as PartialEqSpec<u16>>::eq_spec(
            &<ConfigValue as FromSpec<u16>>::from_spec(v6),
            &v6,
        ),
        <ConfigValue as PartialEqSpec<u32>>::eq_spec(
            &<ConfigValue as FromSpec<u32>>::from_spec(v7),
            &v7,
        ),
{
}

/// Law: two configuration values with different tags are never equal,
/// whatever they hold; in particular an integer never equals a string of
/// the same digits.
pub proof fn lemma_cross_variant_unequal(a: ConfigValue, b: ConfigValue)
    requires
        !same_variant(a, b),
    ensures
        !spec_eq(a, b),
{
}

} // verus!
