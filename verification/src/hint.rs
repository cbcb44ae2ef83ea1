//! Content hint and content purpose of a focused text field.

use vstd::prelude::*;

verus! {

/// Bit set that describes the expected shape of the text of the focused
/// field. The value with no bit set is "no hint".
#[derive(Clone, Copy, Debug, PartialEq, Eq, Structural)]
pub struct ContentHint {
    pub bits: u32,
}

impl ContentHint {
    /// The hint that asks for nothing special.
    pub fn none() -> (hint: ContentHint)
        ensures
            hint.bits == 0,
    {
        ContentHint { bits: 0 }
    }

    /// True when no bit is set.
    pub fn is_none(&self) -> (empty: bool)
        ensures
            empty == (self.bits == 0),
    {
        self.bits == 0
    }
}

/// Semantic type of the focused text field.
#[derive(Clone, Copy, Debug, PartialEq, Eq, Structural)]
pub enum ContentPurpose {
    Normal,
    Alpha,
    Digits,
    Number,
    Phone,
    Url,
    Email,
    Name,
    Password,
    Pin,
    Date,
    Time,
    Datetime,
    Terminal,
}

impl ContentPurpose {
    /// The number that stands for this purpose on the wire.
    pub open spec fn raw(self) -> u32 {
        match self {
            ContentPurpose::Normal => 0,
            ContentPurpose::Alpha => 1,
            ContentPurpose::Digits => 2,
            ContentPurpose::Number => 3,
            ContentPurpose::Phone => 4,
            ContentPurpose::Url => 5,
            ContentPurpose::Email => 6,
            ContentPurpose::Name => 7,
            ContentPurpose::Password => 8,
            ContentPurpose::Pin => 9,
            ContentPurpose::Date => 10,
            ContentPurpose::Time => 11,
            ContentPurpose::Datetime => 12,
            ContentPurpose::Terminal => 13,
        }
    }

    /// The number that stands for this purpose on the wire.
    pub fn to_raw(self) -> (n: u32)
        ensures
            n == self.raw(),
            n <= 13,
    {
        match self {
            ContentPurpose::Normal => 0,
            ContentPurpose::Alpha => 1,
            ContentPurpose::Digits => 2,
            ContentPurpose::Number => 3,
            ContentPurpose::Phone => 4,
            ContentPurpose::Url => 5,
            ContentPurpose::Email => 6,
            ContentPurpose::Name => 7,
            ContentPurpose::Password => 8,
            ContentPurpose::Pin => 9,
            ContentPurpose::Date => 10,
            ContentPurpose::Time => 11,
            ContentPurpose::Datetime => 12,
            ContentPurpose::Terminal => 13,
        }
    }

    /// The purpose that a wire number stands for: one for each number up to
    /// thirteen, none above.
    pub fn from_raw(n: u32) -> (purpose: Option<ContentPurpose>)
        ensures
            purpose.is_some() <==> n <= 13,
            purpose.is_some() ==> purpose.unwrap().raw() == n,
    {
        match n {
            0 => Some(ContentPurpose::Normal),
            1 => Some(ContentPurpose::Alpha),
            2 => Some(ContentPurpose::Digits),
            3 => Some(ContentPurpose::Number),
            4 => Some(ContentPurpose::Phone),
            5 => Some(ContentPurpose::Url),
            6 => Some(ContentPurpose::Email),
            7 => Some(ContentPurpose::Name),
            8 => Some(ContentPurpose::Password),
            9 => Some(ContentPurpose::Pin),
            10 => Some(ContentPurpose::Date),
            11 => Some(ContentPurpose::Time),
            12 => Some(ContentPurpose::Datetime),
            13 => Some(ContentPurpose::Terminal),
            _ => None,
        }
    }
}

/// Two purposes with the same wire number are the same purpose, so
/// `from_raw` is pinned down by `raw`.
pub proof fn purpose_raw_is_injective(a: ContentPurpose, b: ContentPurpose)
    requires
        a.raw() == b.raw(),
    ensures
        a == b,
{
}

} // verus!
