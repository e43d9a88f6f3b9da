use vstd::prelude::*;
use crate::calendar::{consider_previous_day, local_hour};
use crate::text::join3;

verus! {

/// The level-1 category whose prices are shown when a request names none.
pub open spec fn default_level1_category() -> i32 {
    759
}

/// How the published prices are narrowed down; the filters combine.
#[derive(Clone, Debug, PartialEq, Eq)]
pub struct AnnouncementFilter {
    /// The level-1 category of the products.
    pub level1: i32,
    /// The level-3 category of the products, when one is asked for.
    pub level3: Option<i32>,
    /// A `LIKE` pattern the product name must match, when a name is asked for.
    pub name_pattern: Option<String>,
}

/// What a price announcement query asks for.
#[derive(Clone, Debug, PartialEq, Eq)]
pub struct AnnouncementPlan {
    /// Whether the announcements of the previous day are fetched.
    pub consider_previous_day: bool,
    pub filter: AnnouncementFilter,
}

/// The filter of a request: the given level-1 category (or the default one),
/// the level-3 category when given, and, when a product name is given, a
/// search for it anywhere in the product name.
pub open spec fn filter_matches(
    f: AnnouncementFilter,
    name: Option<Seq<char>>,
    category_l1: Option<i32>,
    category_l3: Option<i32>,
) -> bool {
    &&& f.level1 == match category_l1 {
        Some(c) => c,
        None => default_level1_category(),
    }
    &&& f.level3 == category_l3
    &&& match name {
        Some(n) => f.name_pattern matches Some(p) && p@ == "%"@ + n + "%"@,
        None => f.name_pattern is None,
    }
}

/// The plan of a price announcement query made at `hour` (0–23, local time):
/// before noon and without a date, the announcements of the previous day are
/// fetched; otherwise those of the given date or of the current day.
pub fn announcement_plan(
    hour: u32,
    date_given: bool,
    name: Option<&str>,
    category_l1: Option<i32>,
    category_l3: Option<i32>,
) -> (p: AnnouncementPlan)
    ensures
        p.consider_previous_day == (hour < 12 && !date_given),
        filter_matches(
            p.filter,
            match name {
                Some(n) => Some(n@),
                None => None,
            },
            category_l1,
            category_l3,
        ),
{
    let filter = AnnouncementFilter {
        level1: match category_l1 {
            Some(c) => c,
            None => 759,
        },
        level3: category_l3,
        name_pattern: match name {
            Some(n) => Some(join3("%", n, "%")),
            None => None,
        },
    };
    AnnouncementPlan { consider_previous_day: consider_previous_day(hour, date_given), filter }
}

/// The plan of a price announcement query made now, on this machine's clock.
/// With a date given the previous day is never considered; without one it is
/// whenever the clock reads a morning hour, which this contract cannot know.
pub fn current_announcement_plan(
    date_given: bool,
    name: Option<&str>,
    category_l1: Option<i32>,
    category_l3: Option<i32>,
) -> (p: AnnouncementPlan)
    ensures
        date_given ==> !p.consider_previous_day,
        filter_matches(
            p.filter,
            match name {
                Some(n) => Some(n@),
                None => None,
            },
            category_l1,
            category_l3,
        ),
{
    let hour = local_hour();
    announcement_plan(hour, date_given, name, category_l1, category_l3)
}

} // verus!
