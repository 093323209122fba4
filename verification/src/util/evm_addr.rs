//! Normalization of EVM addresses.
//!
//! An "EVM-address-like" string is any string that begins with the prefix
//! `0x`. Such a string is normalized by converting it to lowercase; any other
//! string is its own normal form.

use vstd::prelude::*;
use std::borrow::Cow;
use crate::util::text::{lowercase_of, starts_with, to_lowercase};

verus! {

/// Whether a text begins with the prefix `0x`.
pub open spec fn is_evm_like(text: Seq<char>) -> bool {
    text.len() >= 2 && text[0] == '0' && text[1] == 'x'
}

/// The normal form of a text: its lowercase equivalent where it is
/// EVM-address-like, and else the text itself.
pub open spec fn normalized(text: Seq<char>) -> Seq<char> {
    if is_evm_like(text) {
        lowercase_of(text)
    } else {
        text
    }
}

/// The lowercase equivalent of `val` where it is EVM-address-like and so has
/// to be replaced, `None` where it stands as it is.
#[inline]
pub fn normalize_address_helper(val: &str) -> (lower: Option<String>)
    ensures
        is_evm_like(val@) <==> lower is Some,
        lower matches Some(text) ==> text@ == lowercase_of(val@),
        match lower {
            Some(text) => text@ == normalized(val@),
            None => val@ == normalized(val@),
        },
{
    proof {
        reveal_strlit("0x");
    }
    if starts_with(val, "0x") {
        assert(val@[0] == "0x"@[0] && val@[1] == "0x"@[1]);
        Some(to_lowercase(val))
    } else {
        assert(!is_evm_like(val@)) by {
            if is_evm_like(val@) {
                assert("0x"@ =~= val@.subrange(0, 2));
            }
        }
        None
    }
}

/// Consume a value and produce its equivalent with any contained EVM addresses
/// converted to lowercase
pub trait IntoNormalizedAddress: Sized {
    /// The resulting type of the value after normalization
    type Output;

    /// Whether `out` is this value with all EVM addresses normalized. Each
    /// type of value says here what that means for it.
    open spec fn normalizes_to(&self, out: &Self::Output) -> bool {
        arbitrary()
    }

    /// Consume `self` and produce a new value with all EVM addresses normalized
    fn into_normalized_address(self) -> (out: Self::Output)
        ensures
            self.normalizes_to(&out),
    ;
}

/// Similar to [`IntoNormalizedAddress`], but operates in-place
pub trait NormalizeAddress {
    /// Whether this value is `before` with all EVM addresses normalized. Each
    /// type of value says here what that means for it.
    open spec fn normalized_from(&self, before: &Self) -> bool {
        arbitrary()
    }

    /// Normalize any EVM addresses contained within `self`
    fn normalize_address(&mut self)
        ensures
            final(self).normalized_from(old(self)),
    ;
}

impl<'a> IntoNormalizedAddress for Cow<'a, str> {
    type Output = Cow<'a, str>;

    open spec fn normalizes_to(&self, out: &Cow<'a, str>) -> bool {
        out@ == normalized(self@)
    }

    #[inline]
    fn into_normalized_address(self) -> (out: Cow<'a, str>) {
        match self {
            Cow::Borrowed(text) => match normalize_address_helper(text) {
                Some(lower) => Cow::Owned(lower),
                None => Cow::Borrowed(text),
            },
            Cow::Owned(text) => match normalize_address_helper(text.as_str()) {
                Some(lower) => Cow::Owned(lower),
                None => Cow::Owned(text),
            },
        }
    }
}

impl IntoNormalizedAddress for String {
    type Output = String;

    open spec fn normalizes_to(&self, out: &String) -> bool {
        out@ == normalized(self@)
    }

    #[inline]
    fn into_normalized_address(self) -> (out: String) {
        match normalize_address_helper(self.as_str()) {
            Some(lower) => lower,
            None => self,
        }
    }
}

impl NormalizeAddress for String {
    open spec fn normalized_from(&self, before: &String) -> bool {
        self@ == normalized(before@)
    }

    fn normalize_address(&mut self) {
        if let Some(lower) = normalize_address_helper(self.as_str()) {
            *self = lower;
        }
    }
}

impl<'a> IntoNormalizedAddress for &'a str {
    type Output = Cow<'a, str>;

    open spec fn normalizes_to(&self, out: &Cow<'a, str>) -> bool {
        out@ == normalized(self@)
    }

    #[inline]
    fn into_normalized_address(self) -> (out: Cow<'a, str>) {
        match normalize_address_helper(self) {
            Some(lower) => Cow::Owned(lower),
            None => Cow::Borrowed(self),
        }
    }
}

impl<'a> IntoNormalizedAddress for &'a String {
    type Output = Cow<'a, str>;

    open spec fn normalizes_to(&self, out: &Cow<'a, str>) -> bool {
        out@ == normalized(self@)
    }

    #[inline]
    fn into_normalized_address(self) -> (out: Cow<'a, str>) {
        match normalize_address_helper(self.as_str()) {
            Some(lower) => Cow::Owned(lower),
            None => Cow::Borrowed(self.as_str()),
        }
    }
}

impl<T: IntoNormalizedAddress> IntoNormalizedAddress for Option<T> {
    type Output = Option<T::Output>;

    open spec fn normalizes_to(&self, out: &Option<T::Output>) -> bool {
        match (self, out) {
            (Some(before), Some(after)) => before.normalizes_to(after),
            (None, None) => true,
            _ => false,
        }
    }

    #[inline]
    fn into_normalized_address(self) -> (out: Option<T::Output>) {
        match self {
            Some(val) => Some(val.into_normalized_address()),
            None => None,
        }
    }
}

impl<T: NormalizeAddress> NormalizeAddress for Option<T> {
    open spec fn normalized_from(&self, before: &Option<T>) -> bool {
        match (self, before) {
            (Some(after), Some(before)) => after.normalized_from(before),
            (None, None) => true,
            _ => false,
        }
    }

    #[inline]
    fn normalize_address(&mut self) {
        match self {
            Some(val) => val.normalize_address(),
            None => (),
        }
    }
}

/// A value of an entity's column as it stands before saving: set anew,
/// unchanged since it was read, or not set at all.
#[derive(Debug, Clone, Copy, PartialEq, Eq, Structural, Hash)]
pub enum ActiveValue<T> {
    /// The value was set anew
    Assigned(T),
    /// The value is as it was read
    Unchanged(T),
    /// No value was set
    NotSet,
}

impl<T: IntoNormalizedAddress> IntoNormalizedAddress for ActiveValue<T> {
    type Output = ActiveValue<T::Output>;

    open spec fn normalizes_to(&self, out: &ActiveValue<T::Output>) -> bool {
        match (self, out) {
            (ActiveValue::Assigned(before), ActiveValue::Assigned(after)) => before.normalizes_to(after),
            (ActiveValue::Unchanged(before), ActiveValue::Unchanged(after)) => before.normalizes_to(
                after,
            ),
            (ActiveValue::NotSet, ActiveValue::NotSet) => true,
            _ => false,
        }
    }

    fn into_normalized_address(self) -> (out: ActiveValue<T::Output>) {
        match self {
            ActiveValue::Assigned(v) => ActiveValue::Assigned(v.into_normalized_address()),
            ActiveValue::Unchanged(v) => ActiveValue::Unchanged(v.into_normalized_address()),
            ActiveValue::NotSet => ActiveValue::NotSet,
        }
    }
}

impl<T: NormalizeAddress> NormalizeAddress for ActiveValue<T> {
    open spec fn normalized_from(&self, before: &ActiveValue<T>) -> bool {
        match (self, before) {
            (ActiveValue::Assigned(after), ActiveValue::Assigned(before)) => after.normalized_from(before),
            (ActiveValue::Unchanged(after), ActiveValue::Unchanged(before)) => after.normalized_from(
                before,
            ),
            (ActiveValue::NotSet, ActiveValue::NotSet) => true,
            _ => false,
        }
    }

    fn normalize_address(&mut self) {
        match self {
            ActiveValue::Assigned(v) => v.normalize_address(),
            ActiveValue::Unchanged(v) => v.normalize_address(),
            ActiveValue::NotSet => (),
        }
    }
}

/// Convert any EVM-adddress-like strings among the items to lowercase
///
/// An "EVM-address-like" string is any string that begins with the prefix `0x`.
pub fn downcase_evm_addresses<T: IntoNormalizedAddress>(it: Vec<T>) -> (out: Vec<T::Output>)
    ensures
        out@.len() == it@.len(),
        forall|i: int| 0 <= i < it@.len() ==> (#[trigger] it@[i]).normalizes_to(&out@[i]),
{
    let mut out: Vec<T::Output> = Vec::new();
    for item in items: it
        invariant
            out@.len() == items.index(),
            forall|i: int|
                0 <= i < out@.len() ==> (#[trigger] items.seq()[i]).normalizes_to(&out@[i]),
    {
        out.push(item.into_normalized_address());
    }
    out
}

} // verus!
