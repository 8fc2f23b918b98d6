//! Bus routes and the history of where the buses were.

use vstd::prelude::*;
use crate::helpers::string_views;

verus! {

/// The longest that the history of locations may get.
pub const MAX_HISTORY_LEN: usize = 720;

/// What can go wrong while a location is fetched.
#[derive(Clone, Debug)]
pub enum Error {
    SomeError,
    /// The request to the transport service failed; with the words of the
    /// failure.
    ReqwestError(String),
    /// The answer of the transport service could not be read; with the words
    /// of the failure.
    SerdeJsonError(String),
    /// The transport service refused to answer for now; with its words.
    RateLimited(String),
}

impl Error {
    /// The HTTP status that a failure is answered with: 500, whatever it is.
    pub fn status_code(&self) -> (status: u16)
        ensures
            status == 500,
    {
        500
    }
}

/// What the transport service says where it gives no words of its own.
pub open spec fn default_rate_limit_message() -> Seq<char> {
    "Rate limit exceeded"@
}

/// Tells whether the answer of the transport service is a refusal for now:
/// it is where its status code is 429. The failure carries the message of
/// the answer, or a standard one where the answer has none.
pub fn rate_limit_of(status_code: Option<u64>, message: Option<&str>) -> (refusal: Option<Error>)
    ensures
        match refusal {
            Some(Error::RateLimited(text)) => status_code == Some(429u64) && text@ == match message {
                Some(message) => message@,
                None => default_rate_limit_message(),
            },
            Some(_) => false,
            None => status_code != Some(429u64),
        },
{
    match status_code {
        Some(429) => {
            let text = match message {
                Some(message) => message,
                None => "Rate limit exceeded",
            };
            Some(Error::RateLimited(text.to_owned()))
        },
        _ => None,
    }
}

/// `records`, cut down to its last `max_len` entries where it has more.
pub open spec fn last_entries<T>(records: Seq<T>, max_len: int) -> Seq<T> {
    if records.len() > max_len {
        records.skip(records.len() - max_len)
    } else {
        records
    }
}

/// Adds `record` at the end of `list` and, where the list then holds more
/// than `max_list_len` entries, drops the oldest until it holds that many.
pub fn record_location<T>(list: &mut Vec<T>, record: T, max_list_len: usize)
    ensures
        final(list)@ == last_entries(old(list)@.push(record), max_list_len as int),
{
    list.push(record);
    let list_len = list.len();
    if list_len > max_list_len {
        let kept = list.split_off(list_len - max_list_len);
        *list = kept;
    }
}

/// A bus route, as mathematical values.
pub struct RouteView {
    pub route_id: Seq<char>,
    pub short_name: Seq<char>,
    pub long_name: Seq<char>,
}

/// A bus route.
#[derive(Debug, Clone)]
pub struct RouteInfo {
    pub route_id: String,
    pub short_name: String,
    pub long_name: String,
}

impl View for RouteInfo {
    type V = RouteView;

    open spec fn view(&self) -> RouteView {
        RouteView {
            route_id: self.route_id@,
            short_name: self.short_name@,
            long_name: self.long_name@,
        }
    }
}

/// The route that a record of the routes file describes: its id is the
/// first field, its short name the third and its long name the fourth. None
/// for a record with fewer than four fields.
pub open spec fn route_of(fields: Seq<Seq<char>>) -> Option<RouteView> {
    if fields.len() >= 4 {
        Some(RouteView { route_id: fields[0], short_name: fields[2], long_name: fields[3] })
    } else {
        None
    }
}

/// The routes of the records that describe one, in the order of the
/// records. A record that could not be read counts as one that describes
/// none.
pub open spec fn routes_of(records: Seq<Option<Seq<Seq<char>>>>) -> Seq<RouteView>
    decreases records.len(),
{
    if records.len() == 0 {
        Seq::empty()
    } else {
        let before = routes_of(records.drop_last());
        match records.last() {
            Some(fields) => match route_of(fields) {
                Some(route) => before.push(route),
                None => before,
            },
            None => before,
        }
    }
}

/// The records of a vector, as mathematical values.
pub open spec fn record_views(records: Seq<Option<Vec<String>>>) -> Seq<Option<Seq<Seq<char>>>> {
    records.map_values(
        |record: Option<Vec<String>>|
            match record {
                Some(fields) => Some(string_views(fields@)),
                None => None,
            },
    )
}

/// The routes of a vector, as mathematical values.
pub open spec fn route_views(routes: Seq<RouteInfo>) -> Seq<RouteView> {
    routes.map_values(|route: RouteInfo| route@)
}

impl RouteInfo {
    /// The route that a record of the routes file describes.
    pub fn from_record(fields: &Vec<String>) -> (route: Option<RouteInfo>)
        ensures
            match route {
                Some(route) => route_of(string_views(fields@)) == Some(route@),
                None => route_of(string_views(fields@)) is None,
            },
    {
        if fields.len() < 4 {
            return None;
        }
        Some(
            RouteInfo {
                route_id: fields[0].clone(),
                short_name: fields[2].clone(),
                long_name: fields[3].clone(),
            },
        )
    }
}

/// The routes of the records of a routes file.
pub fn routes_from_records(records: &Vec<Option<Vec<String>>>) -> (routes: Vec<RouteInfo>)
    ensures
        route_views(routes@) == routes_of(record_views(records@)),
{
    let mut routes: Vec<RouteInfo> = Vec::new();
    let mut i: usize = 0;
    assert(record_views(records@).take(0) =~= Seq::<Option<Seq<Seq<char>>>>::empty());
    while i < records.len()
        invariant
            i <= records.len(),
            route_views(routes@) == routes_of(record_views(records@).take(i as int)),
        decreases records.len() - i,
    {
        let ghost done = routes@;
        assert(record_views(records@).take(i + 1).drop_last() =~= record_views(records@).take(
            i as int,
        ));
        if let Some(fields) = &records[i] {
            if let Some(route) = RouteInfo::from_record(fields) {
                routes.push(route);
                assert(route_views(routes@) =~= route_views(done).push(route@));
            }
        }
        i += 1;
    }
    assert(record_views(records@).take(records.len() as int) =~= record_views(records@));
    routes
}

/// What the csv crate reads from a text whose first line is a header: the
/// records after the header, each with its fields, and none in the place of
/// a record that it refuses.
pub uninterp spec fn csv_records_of(contents: Seq<char>) -> Seq<Option<Seq<Seq<char>>>>;

/// Reads the records of a text in CSV format whose first line is a header.
///
/// Builds a `csv::Reader` over the bytes of the text with
/// `ReaderBuilder::has_headers(true)` and walks `Reader::records`; each
/// record is handed on field by field, and an error of the reader as none.
#[verifier::external_body]
fn csv_records(contents: &str) -> (records: Vec<Option<Vec<String>>>)
    ensures
        record_views(records@) == csv_records_of(contents@),
{
    let mut reader = csv::ReaderBuilder::new().has_headers(true).from_reader(contents.as_bytes());
    reader.records().map(
        |result| result.ok().map(|record| record.iter().map(|field| field.to_string()).collect()),
    ).collect()
}

/// The routes that a routes file describes.
pub fn load_routes(contents: &str) -> (routes: Vec<RouteInfo>)
    ensures
        route_views(routes@) == routes_of(csv_records_of(contents@)),
{
    let records = csv_records(contents);
    routes_from_records(&records)
}

/// The route with id `route_id`: the last of `routes` that has it.
pub open spec fn route_with_id(routes: Seq<RouteView>, route_id: Seq<char>) -> Option<RouteView>
    decreases routes.len(),
{
    if routes.len() == 0 {
        None
    } else if routes.last().route_id == route_id {
        Some(routes.last())
    } else {
        route_with_id(routes.drop_last(), route_id)
    }
}

/// Looks a route up by its id. Where several routes have the id, the last
/// of them counts.
pub fn find_route<'a>(routes: &'a Vec<RouteInfo>, route_id: &String) -> (route: Option<
    &'a RouteInfo,
>)
    ensures
        match route {
            Some(route) => route_with_id(route_views(routes@), route_id@) == Some(route@),
            None => route_with_id(route_views(routes@), route_id@) is None,
        },
{
    let ghost all = route_views(routes@);
    let mut i: usize = routes.len();
    assert(all.take(i as int) =~= all);
    while i > 0
        invariant
            i <= routes.len(),
            all == route_views(routes@),
            route_with_id(all, route_id@) == route_with_id(all.take(i as int), route_id@),
        decreases i,
    {
        assert(all.take(i as int).drop_last() =~= all.take(i - 1));
        assert(all.take(i as int).last() == routes@[i - 1]@);
        if routes[i - 1].route_id == *route_id {
            return Some(&routes[i - 1]);
        }
        i -= 1;
    }
    None
}

} // verus!
