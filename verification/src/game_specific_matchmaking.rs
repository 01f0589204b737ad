//! Game specific matchmaking for NPWR02973_00 (Tekken Tag Tournament 2).

use crate::com_id::{is_npwr02973_00, npwr02973_00, ComId};
use vstd::prelude::*;

verus! {

pub const RANK_LOWER_FILTER_INDEX: usize = 3;

pub const RANK_UPPER_FILTER_INDEX: usize = 4;

pub const FIRST_DAN_MAX_RANK: u32 = 10;

/// The attribute that an integer filter of a room search compares with.
#[derive(Clone, Copy, Debug, PartialEq, Eq)]
pub struct IntAttr {
    pub num: u32,
}

/// One integer filter of a room search.
#[derive(Clone, Copy, Debug, PartialEq, Eq)]
pub struct IntSearchFilter {
    pub attr: Option<IntAttr>,
}

/// The part of a room search that rank matching looks at: the values of its
/// integer filters.
///
/// A search holds more than this. Of an adjusted one only the two rank values
/// are to be taken over into it: its other fields, and all else of its filters,
/// stay as the client sent them.
#[derive(Debug)]
pub struct SearchRoomRequest {
    pub int_filter: Vec<IntSearchFilter>,
}

/// The value that filter `index` of a search compares with, if there is one.
pub open spec fn filter_value(filters: Seq<IntSearchFilter>, index: int) -> Option<u32> {
    if index < filters.len() {
        match filters[index].attr {
            Some(attr) => Some(attr.num),
            None => None,
        }
    } else {
        None
    }
}

/// The rank range that a search asks for.
pub open spec fn rank_range(filters: Seq<IntSearchFilter>) -> Option<(u32, u32)> {
    match (
        filter_value(filters, RANK_LOWER_FILTER_INDEX as int),
        filter_value(filters, RANK_UPPER_FILTER_INDEX as int),
    ) {
        (Some(lower), Some(upper)) => Some((lower, upper)),
        _ => None,
    }
}

/// The rank in the middle of a range, rounded down.
pub open spec fn midpoint(lower: u32, upper: u32) -> int {
    lower + (upper - lower) / 2
}

/// The range with both ends moved two ranks toward the midpoint and clamped
/// at it.
pub open spec fn narrowed(lower: u32, upper: u32) -> (int, int) {
    let middle = midpoint(lower, upper);
    (
        if lower + 2 < middle {
            lower + 2
        } else {
            middle
        },
        if upper - 2 > middle {
            upper - 2
        } else {
            middle
        },
    )
}

/// Whether a search for this range is narrowed: a range of ranks whose
/// midpoint lies above 1st dan, and which narrowing changes.
pub open spec fn is_narrowed(lower: u32, upper: u32) -> bool {
    &&& lower <= upper
    &&& midpoint(lower, upper) > FIRST_DAN_MAX_RANK
    &&& narrowed(lower, upper) != (lower as int, upper as int)
}

/// The filters of a search with its rank range replaced.
pub open spec fn with_rank_range(
    filters: Seq<IntSearchFilter>,
    lower: int,
    upper: int,
) -> Seq<IntSearchFilter> {
    filters.update(
        RANK_LOWER_FILTER_INDEX as int,
        IntSearchFilter { attr: Some(IntAttr { num: lower as u32 }) },
    ).update(
        RANK_UPPER_FILTER_INDEX as int,
        IntSearchFilter { attr: Some(IntAttr { num: upper as u32 }) },
    )
}

fn read_filter(filters: &Vec<IntSearchFilter>, index: usize) -> (value: Option<u32>)
    ensures
        value == filter_value(filters@, index as int),
{
    if index < filters.len() {
        match filters[index].attr {
            Some(attr) => Some(attr.num),
            None => None,
        }
    } else {
        None
    }
}

/// Builds the effective ranked-match search request for NPWR02973_00.
///
/// The request sent by the client is never modified. For 2nd-dan-or-higher
/// players, the two rank-range filter values are moved two ranks toward their
/// midpoint and clamped at that midpoint. 1st-dan players retain the range
/// selected by the client. `None` means that the search is used as it was sent.
pub fn build_npwr02973_adjusted_request(
    com_id: &ComId,
    search_req: &SearchRoomRequest,
) -> (adjusted: Option<SearchRoomRequest>)
    ensures
        match (adjusted, rank_range(search_req.int_filter@)) {
            (Some(request), Some((lower, upper))) => {
                &&& com_id@ == npwr02973_00()
                &&& is_narrowed(lower, upper)
                &&& request.int_filter@ == with_rank_range(
                    search_req.int_filter@,
                    narrowed(lower, upper).0,
                    narrowed(lower, upper).1,
                )
            },
            (Some(_), None) => false,
            (None, Some((lower, upper))) => com_id@ != npwr02973_00() || !is_narrowed(
                lower,
                upper,
            ),
            (None, None) => true,
        },
{
    if !is_npwr02973_00(com_id) {
        return None;
    }
    let lower: u32 = match read_filter(&search_req.int_filter, RANK_LOWER_FILTER_INDEX) {
        Some(lower) => lower,
        None => return None,
    };
    let upper: u32 = match read_filter(&search_req.int_filter, RANK_UPPER_FILTER_INDEX) {
        Some(upper) => upper,
        None => return None,
    };
    if lower > upper {
        return None;
    }
    let rank: u32 = lower + (upper - lower) / 2;
    if rank <= FIRST_DAN_MAX_RANK {
        return None;
    }
    let adjusted_lower: u32 = if rank - lower > 2 {
        lower + 2
    } else {
        rank
    };
    let adjusted_upper: u32 = if upper - rank > 2 {
        upper - 2
    } else {
        rank
    };
    if adjusted_lower == lower && adjusted_upper == upper {
        return None;
    }
    let mut int_filter: Vec<IntSearchFilter> = Vec::with_capacity(search_req.int_filter.len());
    for i in 0..search_req.int_filter.len()
        invariant
            int_filter@ == search_req.int_filter@.take(i as int),
    {
        int_filter.push(search_req.int_filter[i]);
        assert(int_filter@ =~= search_req.int_filter@.take(i + 1));
    }
    assert(int_filter@ =~= search_req.int_filter@);
    int_filter[RANK_LOWER_FILTER_INDEX] = IntSearchFilter {
        attr: Some(IntAttr { num: adjusted_lower }),
    };
    int_filter[RANK_UPPER_FILTER_INDEX] = IntSearchFilter {
        attr: Some(IntAttr { num: adjusted_upper }),
    };
    Some(SearchRoomRequest { int_filter })
}

/// A narrowed range lies inside the range that the client selected, still
/// holds its midpoint, and each end has moved by two ranks at most.
pub proof fn law_narrowing_moves_inward(lower: u32, upper: u32)
    requires
        lower <= upper,
    ensures
        lower <= narrowed(lower, upper).0 <= midpoint(lower, upper) <= narrowed(lower, upper).1
            <= upper,
        narrowed(lower, upper).0 <= lower + 2,
        narrowed(lower, upper).1 >= upper - 2,
{
}

/// An end of the range stops short of moving two ranks only by reaching the
/// midpoint.
pub proof fn law_narrowing_stops_only_at_the_midpoint(lower: u32, upper: u32)
    requires
        lower <= upper,
    ensures
        narrowed(lower, upper).0 == lower + 2 || narrowed(lower, upper).0 == midpoint(
            lower,
            upper,
        ),
        narrowed(lower, upper).1 == upper - 2 || narrowed(lower, upper).1 == midpoint(
            lower,
            upper,
        ),
{
}

/// Replacing the rank range touches the two rank filters and nothing else of a
/// search, and the new range is what the search then asks for.
pub proof fn law_other_filters_are_kept(
    filters: Seq<IntSearchFilter>,
    lower: u32,
    upper: u32,
    index: int,
)
    requires
        rank_range(filters) is Some,
        0 <= index < filters.len(),
        index != RANK_LOWER_FILTER_INDEX,
        index != RANK_UPPER_FILTER_INDEX,
    ensures
        ({
            let adjusted = with_rank_range(filters, lower as int, upper as int);
            &&& adjusted.len() == filters.len()
            &&& adjusted[index] == filters[index]
            &&& rank_range(adjusted) == Some((lower, upper))
        }),
{
}

/// The range that a search asks for stands in its fourth and fifth filter, and a
/// search without either asks for none.
pub proof fn law_where_the_range_stands(filters: Seq<IntSearchFilter>)
    ensures
        match rank_range(filters) {
            Some((lower, upper)) => {
                &&& filters.len() >= 5
                &&& filters[3].attr matches Some(attr) && attr.num == lower
                &&& filters[4].attr matches Some(attr) && attr.num == upper
            },
            None => filters.len() < 5 || filters[3].attr is None || filters[4].attr is None,
        },
{
}

/// The ends of a narrowed range: the lower one two ranks up and the upper one two
/// ranks down, but neither beyond half of their sum, rounded down. A range is
/// narrowed exactly where it is one, half of the sum is above ten, and the ends
/// move.
pub proof fn law_what_a_range_is_narrowed_to(lower: u32, upper: u32)
    requires
        lower <= upper,
    ensures
        ({
            let half = (lower + upper) / 2;
            let (low, high) = narrowed(lower, upper);
            &&& low == if lower + 2 <= half {
                lower + 2
            } else {
                half
            }
            &&& high == if upper - 2 >= half {
                upper - 2
            } else {
                half
            }
            &&& is_narrowed(lower, upper) <==> half > 10 && (low != lower || high != upper)
        }),
{
}

/// A range whose lower end is above its upper one is left alone.
pub proof fn law_inverted_ranges_are_left_alone(lower: u32, upper: u32)
    requires
        lower > upper,
    ensures
        !is_narrowed(lower, upper),
{
}

/// An adjusted search holds the new range in its fourth and fifth filter and all
/// other filters as they were.
pub proof fn law_what_an_adjusted_search_holds(
    filters: Seq<IntSearchFilter>,
    lower: u32,
    upper: u32,
    i: int,
)
    requires
        filters.len() >= 5,
        0 <= i < filters.len(),
    ensures
        ({
            let adjusted = with_rank_range(filters, lower as int, upper as int);
            &&& adjusted.len() == filters.len()
            &&& i == 3 ==> adjusted[i].attr == Some(IntAttr { num: lower })
            &&& i == 4 ==> adjusted[i].attr == Some(IntAttr { num: upper })
            &&& i != 3 && i != 4 ==> adjusted[i] == filters[i]
        }),
{
}

} // verus!
