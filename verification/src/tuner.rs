//! Radio stations, the radio-browser.info endpoint choice and station search
//! address, and the bookmark marks on search results.
use vstd::prelude::*;

use crate::text::{join_texts, decimal, decimal_text, drop_last_char, same_text, without_last};

verus! {

/// A radio station as radio-browser.info describes it.
#[derive(Debug)]
pub struct Station {
    pub stationuuid: String,
    pub name: String,
    pub url: String,
    pub url_resolved: String,
    pub homepage: String,
    pub favicon: String,
    pub tags: String,
    pub countrycode: String,
    pub codec: String,
    pub bitrate: u16,
    pub votes: u64,
    pub bookmarked: bool,
}

impl Clone for Station {
    fn clone(&self) -> (r: Self)
        ensures
            r == *self,
    {
        Station {
            stationuuid: self.stationuuid.clone(),
            name: self.name.clone(),
            url: self.url.clone(),
            url_resolved: self.url_resolved.clone(),
            homepage: self.homepage.clone(),
            favicon: self.favicon.clone(),
            tags: self.tags.clone(),
            countrycode: self.countrycode.clone(),
            codec: self.codec.clone(),
            bitrate: self.bitrate,
            votes: self.votes,
            bookmarked: self.bookmarked,
        }
    }
}

/// A station search: stations whose name matches `name`, at most `limit` of them.
#[derive(Debug)]
pub struct StationsSearchQuery {
    pub name: String,
    pub limit: u8,
}

impl Default for StationsSearchQuery {
    /// Twenty jazz stations.
    fn default() -> (r: Self)
        ensures
            r.name@ == "Jazz"@,
            r.limit == 20,
    {
        StationsSearchQuery { name: "Jazz".to_owned(), limit: 20 }
    }
}

/// Scheme put before a host name to make an endpoint address.
pub const HTTPS_PREFIX: &'static str = "https://";

/// The endpoint address for an SRV target: the target is a fully qualified
/// name whose final character (the root dot) is dropped.
pub open spec fn srv_endpoint(target: Seq<char>) -> Seq<char> {
    HTTPS_PREFIX@ + without_last(target)
}

/// The endpoint address for one SRV target of `_api._tcp.radio-browser.info`.
pub fn endpoint_for_srv_target(target: &str) -> (r: String)
    ensures
        r@ == srv_endpoint(target@),
{
    let host = drop_last_char(target);
    join_texts(HTTPS_PREFIX, host.as_str())
}

/// The endpoint addresses for the SRV targets, in the order the lookup gave them.
pub fn api_endpoints(srv_targets: &Vec<String>) -> (r: Vec<String>)
    ensures
        r@.len() == srv_targets@.len(),
        forall|i: int| 0 <= i < r@.len() ==> #[trigger] r@[i]@ == srv_endpoint(srv_targets@[i]@),
{
    let mut r: Vec<String> = Vec::new();
    let n = srv_targets.len();
    for i in 0..n
        invariant
            n == srv_targets@.len(),
            r@.len() == i,
            forall|j: int| 0 <= j < i ==> #[trigger] r@[j]@ == srv_endpoint(srv_targets@[j]@),
    {
        r.push(endpoint_for_srv_target(srv_targets[i].as_str()));
    }
    r
}

/// The station search of radio-browser.info, at a chosen endpoint.
#[derive(Debug)]
pub struct Tuner {
    api_endpoint: String,
}

/// Path and query pieces of a station search address.
pub const SEARCH_PATH: &'static str = "/json/stations/byname/";

pub const SEARCH_LIMIT: &'static str = "?limit=";

pub const SEARCH_ORDER: &'static str = "&order=votes&reverse=true";

/// The station search address: stations named like `name`, at most `limit`,
/// most voted first.
pub open spec fn search_address(endpoint: Seq<char>, name: Seq<char>, limit: nat) -> Seq<char> {
    endpoint + SEARCH_PATH@ + name + SEARCH_LIMIT@ + decimal(limit) + SEARCH_ORDER@
}

impl Tuner {
    /// The endpoint the tuner asks.
    pub closed spec fn endpoint(&self) -> Seq<char> {
        self.api_endpoint@
    }

    /// A tuner that asks the first of the endpoints found.
    pub fn new(api_endpoints: &Vec<String>) -> (r: Tuner)
        requires
            api_endpoints@.len() > 0,
        ensures
            r.endpoint() == api_endpoints@[0]@,
    {
        Tuner { api_endpoint: api_endpoints[0].clone() }
    }

    /// The endpoint address the tuner asks.
    pub fn api_endpoint(&self) -> (r: String)
        ensures
            r@ == self.endpoint(),
    {
        self.api_endpoint.clone()
    }

    /// The address of the search for `query`.
    pub fn search_url(&self, query: &StationsSearchQuery) -> (r: String)
        ensures
            r@ == search_address(self.endpoint(), query.name@, query.limit as nat),
    {
        let mut r = join_texts(self.api_endpoint.as_str(), SEARCH_PATH);
        r.append(query.name.as_str());
        r.append(SEARCH_LIMIT);
        let limit = decimal_text(query.limit as u64);
        r.append(limit.as_str());
        r.append(SEARCH_ORDER);
        r
    }
}

/// The station uuids of a list of stations, in order.
pub fn station_uuids(stations: &Vec<Station>) -> (r: Vec<String>)
    ensures
        r@.len() == stations@.len(),
        forall|i: int| 0 <= i < r@.len() ==> #[trigger] r@[i] == stations@[i].stationuuid,
{
    let mut r: Vec<String> = Vec::new();
    let n = stations.len();
    for i in 0..n
        invariant
            n == stations@.len(),
            r@.len() == i,
            forall|j: int| 0 <= j < i ==> #[trigger] r@[j] == stations@[j].stationuuid,
    {
        r.push(stations[i].stationuuid.clone());
    }
    r
}

/// Whether `uuid` is one of the texts of `list`.
pub open spec fn listed(list: Seq<String>, uuid: Seq<char>) -> bool {
    exists|j: int| 0 <= j < list.len() && #[trigger] list[j]@ == uuid
}

/// `s` with its bookmark mark set to `b`.
pub open spec fn with_mark(s: Station, b: bool) -> Station {
    Station { bookmarked: b, ..s }
}

/// The stations of `stations`, each marked as bookmarked exactly when its uuid
/// is listed in `bookmarked`.
pub open spec fn spec_mark(stations: Seq<Station>, bookmarked: Seq<String>) -> Seq<Station> {
    stations.map_values(|s: Station| with_mark(s, listed(bookmarked, s.stationuuid@)))
}

/// Whether `uuid` is one of the texts of `list`.
pub fn is_listed(list: &Vec<String>, uuid: &String) -> (r: bool)
    ensures
        r == listed(list@, uuid@),
{
    let n = list.len();
    for i in 0..n
        invariant
            n == list@.len(),
            forall|j: int| 0 <= j < i ==> #[trigger] list@[j]@ != uuid@,
    {
        if same_text(list[i].as_str(), uuid.as_str()) {
            return true;
        }
    }
    false
}

/// Marks each station as bookmarked exactly when its uuid is listed in
/// `bookmarked`; nothing else changes.
pub fn mark_bookmarked(stations: &mut Vec<Station>, bookmarked: &Vec<String>)
    ensures
        final(stations)@ == spec_mark(old(stations)@, bookmarked@),
{
    let n = stations.len();
    for i in 0..n
        invariant
            n == stations@.len(),
            n == old(stations)@.len(),
            forall|j: int|
                0 <= j < i ==> #[trigger] stations@[j] == with_mark(
                    old(stations)@[j],
                    listed(bookmarked@, old(stations)@[j].stationuuid@),
                ),
            forall|j: int| i <= j < n ==> #[trigger] stations@[j] == old(stations)@[j],
    {
        let mut s = stations[i].clone();
        s.bookmarked = is_listed(bookmarked, &s.stationuuid);
        stations.set(i, s);
    }
    proof {
        assert(stations@ =~= spec_mark(old(stations)@, bookmarked@));
    }
}

/// Search results with their bookmark marks: when the bookmarked uuids could be
/// read, each station is marked by them; otherwise the results are unchanged.
pub fn stations_with_bookmarks(stations: Vec<Station>, bookmarked: Option<Vec<String>>) -> (r: Vec<
    Station,
>)
    ensures
        bookmarked is None ==> r@ == stations@,
        bookmarked matches Some(b) ==> r@ == spec_mark(stations@, b@),
{
    let mut stations = stations;
    match bookmarked {
        Some(b) => {
            mark_bookmarked(&mut stations, &b);
            stations
        },
        None => stations,
    }
}

/// The search address is the endpoint, `/json/stations/byname/`, the query
/// name exactly as given, `?limit=`, the limit in decimal, then
/// `&order=votes&reverse=true`; each piece stands at its place.
pub proof fn law_search_address_pieces(endpoint: Seq<char>, name: Seq<char>, limit: nat)
    ensures
        ({
            let a = search_address(endpoint, name, limit);
            let p: int = endpoint.len() as int + "/json/stations/byname/"@.len();
            let q: int = p + name.len();
            let l: int = q + "?limit="@.len();
            let o: int = l + decimal(limit).len();
            &&& a.len() == o + "&order=votes&reverse=true"@.len()
            &&& a.subrange(0, endpoint.len() as int) == endpoint
            &&& a.subrange(endpoint.len() as int, p) == "/json/stations/byname/"@
            &&& a.subrange(p, q) == name
            &&& a.subrange(q, l) == "?limit="@
            &&& a.subrange(l, o) == decimal(limit)
            &&& a.subrange(o, a.len() as int) == "&order=votes&reverse=true"@
        }),
{
    let a = search_address(endpoint, name, limit);
    let p: int = endpoint.len() as int + SEARCH_PATH@.len();
    let q: int = p + name.len();
    let l: int = q + SEARCH_LIMIT@.len();
    let o: int = l + decimal(limit).len();
    assert(a.subrange(0, endpoint.len() as int) =~= endpoint);
    assert(a.subrange(endpoint.len() as int, p) =~= SEARCH_PATH@);
    assert(a.subrange(p, q) =~= name);
    assert(a.subrange(q, l) =~= SEARCH_LIMIT@);
    assert(a.subrange(l, o) =~= decimal(limit));
    assert(a.subrange(o, a.len() as int) =~= SEARCH_ORDER@);
}

/// The endpoint of an SRV target is `https://` followed by the target without
/// its final character (the root dot).
pub proof fn law_srv_endpoint_drops_root_dot(target: Seq<char>)
    ensures
        target.len() > 0 ==> srv_endpoint(target) == "https://"@ + target.subrange(
            0,
            target.len() - 1,
        ),
        target.len() > 0 ==> srv_endpoint(target).len() == "https://"@.len() + target.len() - 1,
{
}

/// After marking, a station is marked exactly when some listed text equals its
/// uuid, and every other field is the one it had.
pub proof fn law_mark_follows_list(stations: Seq<Station>, bookmarked: Seq<String>, i: int)
    requires
        0 <= i < stations.len(),
    ensures
        spec_mark(stations, bookmarked).len() == stations.len(),
        spec_mark(stations, bookmarked)[i].bookmarked <==> exists|j: int|
            0 <= j < bookmarked.len() && #[trigger] bookmarked[j]@ == stations[i].stationuuid@,
        spec_mark(stations, bookmarked)[i].stationuuid == stations[i].stationuuid,
        spec_mark(stations, bookmarked)[i].name == stations[i].name,
        spec_mark(stations, bookmarked)[i].url == stations[i].url,
        spec_mark(stations, bookmarked)[i].url_resolved == stations[i].url_resolved,
        spec_mark(stations, bookmarked)[i].homepage == stations[i].homepage,
        spec_mark(stations, bookmarked)[i].favicon == stations[i].favicon,
        spec_mark(stations, bookmarked)[i].tags == stations[i].tags,
        spec_mark(stations, bookmarked)[i].countrycode == stations[i].countrycode,
        spec_mark(stations, bookmarked)[i].codec == stations[i].codec,
        spec_mark(stations, bookmarked)[i].bitrate == stations[i].bitrate,
        spec_mark(stations, bookmarked)[i].votes == stations[i].votes,
{
}

/// Marking twice by the same list marks as once: the marks only depend on the
/// list, and everything but the marks is kept.
pub proof fn law_mark_idempotent(stations: Seq<Station>, bookmarked: Seq<String>)
    ensures
        spec_mark(spec_mark(stations, bookmarked), bookmarked) == spec_mark(stations, bookmarked),
        spec_mark(stations, bookmarked).len() == stations.len(),
        forall|i: int|
            0 <= i < stations.len() ==> with_mark(#[trigger] spec_mark(stations, bookmarked)[i], false)
                == with_mark(stations[i], false),
{
    assert(spec_mark(spec_mark(stations, bookmarked), bookmarked) =~= spec_mark(stations, bookmarked));
}

} // verus!
