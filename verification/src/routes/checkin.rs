//! Logging a check-in and listing one's check-ins.
//!
//! As with the accounts, each endpoint is given as a whole on a
//! [`Collection`] of check-ins, and as the steps before and after the
//! store, for a server that keeps its check-ins elsewhere.

use crate::errors::Error;
use crate::models::checkin::{
    is_emotion, is_rating, is_valid_emotion, is_valid_rating, Checkin, CheckinFilter, DateWindow,
    PublicCheckin,
};
use crate::utils::custom_response::{
    CustomResponse, CustomResponseBuilder, ResponsePagination, STATUS_CREATED, STATUS_OK,
};
use crate::utils::date::Date;
use crate::utils::models::{
    consistent, lemma_listing_within, matching, ordered, page, Collection, ModelExt, Sort,
};
use crate::utils::pagination::Pagination;
use crate::utils::token::TokenUser;
use vstd::prelude::*;

verus! {

/// What a user submits to log a check-in.
#[derive(Debug, Clone, PartialEq, Eq)]
pub struct CreateCheckinRequest {
    pub mood_rating: u8,
    pub primary_emotion: String,
    pub intensity: u8,
    pub energy_level: u8,
    pub stress_level: u8,
    pub wellbeing: u8,
    pub notes: Option<String>,
}

/// The month that a listing is narrowed to. The listing is narrowed only
/// if both parts are given; a month is checked even when it stands alone.
#[derive(Debug, Clone, Copy, PartialEq, Eq)]
pub struct CheckinQueryParams {
    /// Month of the year, from 1 to 12.
    pub month: Option<u32>,
    pub year: Option<i32>,
}

/// What to ask the store for a listing.
#[derive(Debug, Clone, Copy, PartialEq, Eq)]
pub struct CheckinQuery {
    pub filter: CheckinFilter,
    pub sort: Sort,
    pub offset: u64,
    pub limit: u64,
}

/// The instant at which the given day begins in UTC, in milliseconds since
/// the epoch, as `chrono` reckons it; nothing where `chrono` has no such
/// date.
pub uninterp spec fn day_start(year: i32, month: u32, day: u32) -> Option<i64>;

/// `chrono::NaiveDate::from_ymd_opt` for the day, then the midnight that
/// begins it in UTC (`and_hms_opt`, `and_utc`) and its `timestamp_millis`.
#[verifier::external_body]
fn chrono_day_start(year: i32, month: u32, day: u32) -> (millis: Option<i64>)
    ensures
        millis == day_start(year, month, day),
{
    chrono::NaiveDate::from_ymd_opt(year, month, day).and_then(|date| date.and_hms_opt(0, 0, 0))
        .map(|midnight| midnight.and_utc().timestamp_millis())
}

/// The first instant of the given month in UTC: the beginning of its first
/// day.
pub open spec fn month_start(year: i32, month: u32) -> Option<i64> {
    day_start(year, month, 1)
}

/// Works out the first instant of the given month.
pub fn start_of_month(year: i32, month: u32) -> (millis: Option<i64>)
    ensures
        millis == month_start(year, month),
{
    chrono_day_start(year, month, 1)
}

/// The month after the given one, as year and month; none after December
/// of the last year that fits.
pub open spec fn month_after(year: i32, month: u32) -> Option<(i32, u32)> {
    if month < 12 {
        Some((year, (month + 1) as u32))
    } else if year < i32::MAX {
        Some(((year + 1) as i32, 1u32))
    } else {
        None
    }
}

/// The stretch of time between two instants given in milliseconds since the
/// epoch, where both are there and the first lies before the second.
pub open spec fn stretch(start: Option<i64>, end: Option<i64>) -> Option<DateWindow> {
    match (start, end) {
        (Some(start), Some(end)) if start < end => Some(
            DateWindow { start: Date { millis: start }, end: Date { millis: end } },
        ),
        _ => None,
    }
}

/// The stretch of time that the given month covers: from its first instant
/// to the first instant of the month after it. There is none where either
/// instant lies outside the calendar.
pub open spec fn month_window(year: i32, month: u32) -> Option<DateWindow> {
    match month_after(year, month) {
        Some((next_year, next_month)) => stretch(
            month_start(year, month),
            month_start(next_year, next_month),
        ),
        None => None,
    }
}

/// Works out the month after the given one.
pub fn next_month(year: i32, month: u32) -> (next: Option<(i32, u32)>)
    requires
        1 <= month <= 12,
    ensures
        next == month_after(year, month),
{
    if month < 12 {
        Some((year, month + 1))
    } else if year < i32::MAX {
        Some((year + 1, 1))
    } else {
        None
    }
}

/// Makes the stretch of time between two instants, where both are there and
/// the first lies before the second. What the calendar hands back is tested
/// here, so that every window made begins before it ends.
pub fn window_between(start: Option<i64>, end: Option<i64>) -> (window: Option<DateWindow>)
    ensures
        window == stretch(start, end),
        window matches Some(made) ==> made.ordered(),
{
    match (start, end) {
        (Some(start), Some(end)) => {
            if start < end {
                Some(DateWindow { start: Date::from_millis(start), end: Date::from_millis(end) })
            } else {
                None
            }
        },
        _ => None,
    }
}

/// Every window that a listing is narrowed to begins before it ends.
pub proof fn lemma_wanted_window_ordered(params: CheckinQueryParams)
    ensures
        params.wanted() matches Ok(Some(window)) ==> window.ordered(),
{
}

/// Works out the stretch of time that a month covers.
pub fn window_of_month(year: i32, month: u32) -> (window: Option<DateWindow>)
    requires
        1 <= month <= 12,
    ensures
        window == month_window(year, month),
        window matches Some(made) ==> made.ordered(),
{
    match next_month(year, month) {
        Some((next_year, next_month)) => window_between(
            start_of_month(year, month),
            start_of_month(next_year, next_month),
        ),
        None => None,
    }
}

impl CreateCheckinRequest {
    /// What is wrong with the request, if anything: a rating off the scale
    /// from one to five, or a primary emotion that is not one of the known
    /// labels.
    pub open spec fn fault(self) -> Option<Seq<char>> {
        if !(is_rating(self.mood_rating) && is_rating(self.intensity) && is_rating(
            self.energy_level,
        ) && is_rating(self.stress_level) && is_rating(self.wellbeing)) {
            Some("Validation error: ratings must be between 1 and 5"@)
        } else if !is_emotion(self.primary_emotion@) {
            Some("Invalid primary emotion"@)
        } else {
            None
        }
    }

    /// Refuses a request that has a fault, with the fault as the message.
    pub fn validate(&self) -> (r: Result<(), Error>)
        ensures
            match self.fault() {
                Some(fault) => r matches Err(Error::BadRequest(refusal)) && refusal.message@
                    == fault,
                None => r is Ok,
            },
    {
        if !(is_valid_rating(self.mood_rating) && is_valid_rating(self.intensity)
            && is_valid_rating(self.energy_level) && is_valid_rating(self.stress_level)
            && is_valid_rating(self.wellbeing)) {
            Err(
                Error::bad_request_with_message(
                    "Validation error: ratings must be between 1 and 5".to_owned(),
                ),
            )
        } else if !is_valid_emotion(self.primary_emotion.as_str()) {
            Err(Error::bad_request_with_message("Invalid primary emotion".to_owned()))
        } else {
            Ok(())
        }
    }
}

impl CheckinQueryParams {
    /// The stretch of time that the listing is narrowed to. A month that is
    /// not one of the twelve is refused, whether or not a year is given.
    /// Otherwise the listing is narrowed only if both month and year are
    /// given, and then a month that the calendar does not have is refused.
    pub open spec fn wanted(self) -> Result<Option<DateWindow>, Seq<char>> {
        match self.month {
            Some(month) => {
                if month < 1 || month > 12 {
                    Err("Month must be between 1 and 12"@)
                } else {
                    match self.year {
                        Some(year) => match month_window(year, month) {
                            Some(window) => Ok(Some(window)),
                            None => Err("Invalid date"@),
                        },
                        None => Ok(None),
                    }
                }
            },
            None => Ok(None),
        }
    }
}

/// Whether `checkin` is the check-in that `payload` asks for on behalf of
/// the user `owner`, not stored yet.
pub open spec fn logs(checkin: Checkin, owner: TokenUser, payload: CreateCheckinRequest) -> bool {
    checkin == Checkin::fresh(
        owner.id,
        payload.mood_rating,
        payload.primary_emotion,
        payload.intensity,
        payload.energy_level,
        payload.stress_level,
        payload.wellbeing,
        payload.notes,
        checkin.created_at,
    )
}

/// First step of logging a check-in: checks the request and makes the
/// check-in to store. A request with a fault is refused here, before
/// anything reaches the store.
pub fn checkin_to_create(user: &TokenUser, payload: CreateCheckinRequest) -> (r: Result<
    Checkin,
    Error,
>)
    ensures
        match payload.fault() {
            Some(fault) => r matches Err(Error::BadRequest(refusal)) && refusal.message@ == fault,
            None => r matches Ok(checkin) && logs(checkin, *user, payload) && checkin.valid(),
        },
{
    match payload.validate() {
        Err(error) => {
            return Err(error);
        },
        Ok(()) => {},
    }
    let CreateCheckinRequest {
        mood_rating,
        primary_emotion,
        intensity,
        energy_level,
        stress_level,
        wellbeing,
        notes,
    } = payload;
    Ok(
        Checkin::new(
            user.id,
            mood_rating,
            primary_emotion,
            intensity,
            energy_level,
            stress_level,
            wellbeing,
            notes,
        ),
    )
}

/// Last step of logging a check-in: the answer that presents the check-in
/// as it was stored.
pub fn checkin_created(created: Checkin) -> (response: CustomResponse<PublicCheckin>)
    requires
        created.id is Some,
    ensures
        response.success,
        response.status_code == STATUS_CREATED,
        response.body == Some(created.public()),
        response.pagination is None,
{
    CustomResponseBuilder::new().body(PublicCheckin::from(created)).status_code(
        STATUS_CREATED,
    ).build()
}

/// First step of a listing: works out what to ask the store. The check-ins
/// are those of `user`, within the month asked for if there is one, newest
/// first, in the window that `pagination` gives.
pub fn checkins_query(user: &TokenUser, params: &CheckinQueryParams, pagination: &Pagination) -> (r:
    Result<CheckinQuery, Error>)
    ensures
        match params.wanted() {
            Ok(window) => r matches Ok(query) && query.filter.user == user.id && query.filter.window
                == window && query.sort == Sort::NewestFirst && query.offset == pagination.offset
                && query.limit == pagination.limit,
            Err(reason) => r matches Err(Error::BadRequest(refusal)) && refusal.message@ == reason,
        },
{
    let window = match params.month {
        Some(month) => {
            if month < 1 || month > 12 {
                return Err(
                    Error::bad_request_with_message("Month must be between 1 and 12".to_owned()),
                );
            }
            match params.year {
                Some(year) => match window_of_month(year, month) {
                    Some(window) => Some(window),
                    None => {
                        return Err(Error::bad_request_with_message("Invalid date".to_owned()));
                    },
                },
                None => None,
            }
        },
        None => None,
    };
    Ok(
        CheckinQuery {
            filter: CheckinFilter { user: user.id, window },
            sort: Sort::NewestFirst,
            offset: pagination.offset,
            limit: pagination.limit,
        },
    )
}

/// The public forms of stored check-ins, one for one.
pub open spec fn public_forms(checkins: Seq<Checkin>) -> Seq<PublicCheckin> {
    checkins.map_values(|checkin: Checkin| checkin.public())
}

/// Last step of a listing: the answer that presents the page `found`
/// together with where it lies among the `count` check-ins that matched.
pub fn checkins_listed(found: &Vec<Checkin>, count: u64, pagination: &Pagination) -> (response:
    CustomResponse<Vec<PublicCheckin>>)
    requires
        forall|i: int| 0 <= i < found@.len() ==> (#[trigger] found@[i]).id is Some,
    ensures
        response.success,
        response.status_code == STATUS_OK,
        response.body matches Some(list) && list@ == public_forms(found@),
        response.pagination == Some(
            ResponsePagination { count, offset: pagination.offset, limit: pagination.limit },
        ),
{
    let mut list: Vec<PublicCheckin> = Vec::new();
    let mut i: usize = 0;
    while i < found.len()
        invariant
            i <= found@.len(),
            forall|j: int| 0 <= j < found@.len() ==> (#[trigger] found@[j]).id is Some,
            list@ == public_forms(found@.take(i as int)),
        decreases found@.len() - i,
    {
        list.push(found[i].to_public());
        assert(public_forms(found@.take(i + 1)) =~= public_forms(found@.take(i as int)).push(
            found@[i as int].public(),
        ));
        i += 1;
    }
    assert(found@.take(i as int) =~= found@);
    CustomResponseBuilder::new().body(list).pagination(
        ResponsePagination { count, offset: pagination.offset, limit: pagination.limit },
    ).build()
}

/// Whether `after` is `before` with one more check-in, the one that
/// `payload` asks for on behalf of `owner`, stored under a fresh identifier.
pub open spec fn logged(
    before: Seq<Checkin>,
    after: Seq<Checkin>,
    owner: TokenUser,
    payload: CreateCheckinRequest,
) -> bool {
    &&& after.len() == before.len() + 1
    &&& after.drop_last() == before
    &&& after.last().id is Some
    &&& logs(Checkin { id: None, ..after.last() }, owner, payload)
}

/// Logs a check-in for `user`. A request with a rating off the scale or an
/// unknown emotion is refused and nothing is stored.
pub fn create_checkin(
    checkins: &mut Collection<Checkin>,
    user: &TokenUser,
    payload: CreateCheckinRequest,
) -> (r: Result<CustomResponse<PublicCheckin>, Error>)
    requires
        old(checkins).wf(),
    ensures
        final(checkins).wf(),
        payload.fault() matches Some(fault) ==> (r matches Err(Error::BadRequest(refusal))
            && refusal.message@ == fault),
        r is Err ==> final(checkins)@ == old(checkins)@,
        payload.fault() is None && old(checkins)@.len() < usize::MAX ==> r is Ok,
        payload.fault() is None && old(checkins)@.len() >= usize::MAX ==> r matches Err(
            Error::Wither(_),
        ),
        final(checkins).declared() == old(checkins).declared(),
        r matches Ok(response) ==> logged(old(checkins)@, final(checkins)@, *user, payload)
            && response.success && response.status_code == STATUS_CREATED && response.body
            == Some(final(checkins)@.last().public()) && response.pagination is None,
{
    let ghost before = checkins@;
    let checkin = match checkin_to_create(user, payload) {
        Ok(checkin) => checkin,
        Err(error) => {
            return Err(error);
        },
    };
    let created = match checkins.create(checkin) {
        Ok(created) => created,
        Err(error) => {
            return Err(error);
        },
    };
    proof {
        assert(checkins@.drop_last() =~= before);
        assert(checkins@.last() == created);
        assert((Checkin { id: None, ..created }) == checkin);
    }
    Ok(checkin_created(created))
}

/// Lists the check-ins of `user`, newest first, within the month asked for
/// if there is one, page by page. The count beside the page is that of all
/// check-ins that matched.
pub fn get_user_checkins(
    checkins: &Collection<Checkin>,
    user: &TokenUser,
    params: &CheckinQueryParams,
    pagination: &Pagination,
) -> (r: Result<CustomResponse<Vec<PublicCheckin>>, Error>)
    requires
        checkins.wf(),
    ensures
        match params.wanted() {
            Err(reason) => r matches Err(Error::BadRequest(refusal)) && refusal.message@ == reason,
            Ok(window) => {
                let found = matching(checkins@, &CheckinFilter { user: user.id, window });
                &&& r matches Ok(response)
                &&& response.success
                &&& response.status_code == STATUS_OK
                &&& response.body matches Some(list)
                &&& list@ == public_forms(
                    page(ordered(found, Sort::NewestFirst), pagination.offset, pagination.limit),
                )
                &&& response.pagination == Some(
                    ResponsePagination {
                        count: found.len() as u64,
                        offset: pagination.offset,
                        limit: pagination.limit,
                    },
                )
            },
        },
{
    let query = match checkins_query(user, params, pagination) {
        Ok(query) => query,
        Err(error) => {
            return Err(error);
        },
    };
    let (found, count) = checkins.find_and_count(&query.filter, query.sort, query.offset, query.limit);
    proof {
        lemma_listing_within(checkins@, &query.filter, query.sort, query.offset, query.limit);
        assert forall|i: int| 0 <= i < found@.len() implies (#[trigger] found@[i]).id is Some by {
            let shown = found@[i];
            assert(checkins@.contains(shown));
            let k = choose|k: int| 0 <= k < checkins@.len() && checkins@[k] == shown;
            assert(checkins@[k].id_of() is Some);
        }
    }
    Ok(checkins_listed(&found, count, pagination))
}

} // verus!
