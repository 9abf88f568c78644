use crate::text::{contains, lowercase_of, occurs_in, same_text, to_lowercase};
use vstd::prelude::*;

verus! {

/// Which items of a listing are kept, by whether they are marked as adult
/// content.
#[derive(Clone, Copy, Debug, PartialEq, Eq, Structural)]
pub enum FilterType {
    /// Keep only the items marked as adult content.
    AdultOnly,
    /// Drop the items marked as adult content.
    NoAdult,
    /// Keep every item; its name is `none`.
    All,
}

/// A filter name that is none of `adult-only`, `no-adult` and `none`.
#[derive(Clone, Copy, Debug, PartialEq, Eq, Structural)]
pub struct UnknownFilter;

/// The filter that a name stands for.
pub open spec fn filter_named(name: Seq<char>) -> Option<FilterType> {
    if name == "adult-only"@ {
        Some(FilterType::AdultOnly)
    } else if name == "no-adult"@ {
        Some(FilterType::NoAdult)
    } else if name == "none"@ {
        Some(FilterType::All)
    } else {
        None
    }
}

/// A text holds the marker `adult`, in any case.
pub open spec fn mentions_adult(text: Seq<char>) -> bool {
    occurs_in("adult"@, lowercase_of(text))
}

/// Tells whether a text holds the marker `adult`, in any case.
pub fn text_mentions_adult(text: &str) -> (found: bool)
    ensures
        found == mentions_adult(text@),
{
    let lower = to_lowercase(text);
    contains(lower.as_str(), "adult")
}

impl FilterType {
    /// Whether the filter keeps an item, given whether the item is marked as
    /// adult content.
    pub open spec fn keeps(self, adult: bool) -> bool {
        match self {
            FilterType::AdultOnly => adult,
            FilterType::NoAdult => !adult,
            FilterType::All => true,
        }
    }

    /// Tells whether the filter keeps an item.
    pub fn retains(self, adult: bool) -> (kept: bool)
        ensures
            kept == self.keeps(adult),
    {
        match self {
            FilterType::AdultOnly => adult,
            FilterType::NoAdult => !adult,
            FilterType::All => true,
        }
    }

    /// Reads a filter from its name: `adult-only`, `no-adult` or `none`.
    pub fn parse(name: &str) -> (filter: Option<FilterType>)
        ensures
            filter == filter_named(name@),
    {
        if same_text(name, "adult-only") {
            Some(FilterType::AdultOnly)
        } else if same_text(name, "no-adult") {
            Some(FilterType::NoAdult)
        } else if same_text(name, "none") {
            Some(FilterType::All)
        } else {
            None
        }
    }
}

impl std::str::FromStr for FilterType {
    type Err = UnknownFilter;

    fn from_str(name: &str) -> (filter: Result<FilterType, UnknownFilter>)
        ensures
            match filter_named(name@) {
                Some(named) => filter == Ok::<FilterType, UnknownFilter>(named),
                None => filter is Err,
            },
    {
        match FilterType::parse(name) {
            Some(filter) => Ok(filter),
            None => Err(UnknownFilter),
        }
    }
}

impl Default for FilterType {
    fn default() -> (filter: FilterType)
        ensures
            filter == FilterType::All,
    {
        FilterType::All
    }
}

/// An item marked as adult content is kept by `AdultOnly` and dropped by
/// `NoAdult`; an item not so marked is dropped by `AdultOnly` and kept by
/// `NoAdult`; `All` keeps both.
pub proof fn law_filter_by_adult_mark(adult: bool)
    ensures
        FilterType::AdultOnly.keeps(adult) == adult,
        FilterType::NoAdult.keeps(adult) == !adult,
        FilterType::All.keeps(adult),
{
}

} // verus!
