use vstd::prelude::*;

verus! {

/// The time window that a top list is computed over.
///
/// `TwelveMonths` and `OneYear` are two names for the same window: both
/// go over the wire as the same token.
#[derive(Debug, Clone, Copy, PartialEq, Eq)]
pub enum Period {
    Overall,
    SevenDays,
    OneMonth,
    ThreeMonths,
    SixMonths,
    TwelveMonths,
    OneYear,
}

/// The wire token of a period.
pub open spec fn period_token(p: Period) -> Seq<char> {
    match p {
        Period::Overall => "overall"@,
        Period::SevenDays => "7day"@,
        Period::OneMonth => "1month"@,
        Period::ThreeMonths => "3month"@,
        Period::SixMonths => "6month"@,
        Period::TwelveMonths => "12month"@,
        Period::OneYear => "12month"@,
    }
}

/// Every token that a period can be sent as.
pub open spec fn period_tokens() -> Set<Seq<char>> {
    set!["overall"@, "7day"@, "1month"@, "3month"@, "6month"@, "12month"@]
}

impl Period {
    /// The wire token of this period.
    pub fn to_string(&self) -> (r: String)
        ensures
            r@ == period_token(*self),
    {
        match self {
            Period::Overall => String::from_str("overall"),
            Period::SevenDays => String::from_str("7day"),
            Period::OneMonth => String::from_str("1month"),
            Period::ThreeMonths => String::from_str("3month"),
            Period::SixMonths => String::from_str("6month"),
            Period::TwelveMonths => String::from_str("12month"),
            Period::OneYear => String::from_str("12month"),
        }
    }
}

/// Every period is sent as one of the six fixed tokens, and the two names
/// of the twelve-month window are sent as the same token.
pub proof fn lemma_period_token_in_fixed_set(p: Period)
    ensures
        period_tokens().contains(period_token(p)),
        period_token(Period::TwelveMonths) == period_token(Period::OneYear),
{
}

} // verus!
