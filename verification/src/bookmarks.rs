//! The bookmark and artist-cache tables: their statements, the values written
//! for a bookmark, and what is made of the rows read back.
use vstd::prelude::*;

use crate::tuner::{listed, spec_mark, Station};
use vstd::string::*;

verus! {

/// Creates the bookmarked stations table when it is missing.
pub const CREATE_BOOKMARKS_TABLE: &'static str = "CREATE TABLE IF NOT EXISTS bookmarked_stations (
                stationuuid TEXT PRIMARY KEY,
                name TEXT,
                url TEXT,
                url_resolved TEXT,
                homepage TEXT,
                favicon TEXT,
                tags TEXT,
                countrycode TEXT
            )";

/// Creates the artist cache table when it is missing.
pub const CREATE_ARTIST_CACHE_TABLE: &'static str = "CREATE TABLE IF NOT EXISTS artist_cache (
                name TEXT PRIMARY KEY,
                data TEXT
            )";

/// Bookmarks a station, from the eight values of `bookmark_values`.
pub const INSERT_BOOKMARK: &'static str = "INSERT INTO bookmarked_stations 
                (stationuuid, name, url, url_resolved, homepage, favicon, tags, countrycode)
                VALUES (?1,?2,?3,?4,?5,?6,?7,?8)";

/// Removes the bookmark of a station uuid.
pub const DELETE_BOOKMARK: &'static str = "DELETE FROM bookmarked_stations WHERE stationuuid = ?1";

/// Lists the bookmarked stations, in the columns of `BookmarkRow`.
pub const SELECT_BOOKMARKS: &'static str = "SELECT stationuuid, name, url, url_resolved, homepage, favicon, tags, countrycode FROM bookmarked_stations";

/// Stores the json of an artist record under the artist's name.
pub const INSERT_ARTIST_CACHE: &'static str = "INSERT INTO artist_cache 
                (name, data)
                VALUES (?1,?2)";

/// Reads the json stored under an artist's name.
pub const SELECT_ARTIST_CACHE: &'static str = "SELECT data FROM artist_cache WHERE name=?";

/// Start of the statement that tells which of a list of uuids are bookmarked.
pub const SELECT_BOOKMARKED_UUIDS: &'static str = "SELECT stationuuid FROM bookmarked_stations WHERE stationuuid IN (";

/// The columns stored for a bookmarked station.
#[derive(Debug)]
pub struct BookmarkRow {
    pub stationuuid: String,
    pub name: String,
    pub url: String,
    pub url_resolved: String,
    pub homepage: String,
    pub favicon: String,
    pub tags: String,
    pub countrycode: String,
}

/// The values written for a bookmark, in the column order of `INSERT_BOOKMARK`.
pub fn bookmark_values(station: &Station) -> (r: Vec<String>)
    ensures
        r@ == seq![
            station.stationuuid,
            station.name,
            station.url,
            station.url_resolved,
            station.homepage,
            station.favicon,
            station.tags,
            station.countrycode,
        ],
{
    let mut r: Vec<String> = Vec::new();
    r.push(station.stationuuid.clone());
    r.push(station.name.clone());
    r.push(station.url.clone());
    r.push(station.url_resolved.clone());
    r.push(station.homepage.clone());
    r.push(station.favicon.clone());
    r.push(station.tags.clone());
    r.push(station.countrycode.clone());
    proof {
        assert(r@ =~= seq![
            station.stationuuid,
            station.name,
            station.url,
            station.url_resolved,
            station.homepage,
            station.favicon,
            station.tags,
            station.countrycode,
        ]);
    }
    r
}

/// Whether `s` is the station the bookmark row `row` stands for: the stored
/// columns, an empty codec, zero bitrate and votes, and marked as bookmarked.
pub open spec fn station_of(row: BookmarkRow, s: Station) -> bool {
    &&& s.stationuuid == row.stationuuid
    &&& s.name == row.name
    &&& s.url == row.url
    &&& s.url_resolved == row.url_resolved
    &&& s.homepage == row.homepage
    &&& s.favicon == row.favicon
    &&& s.tags == row.tags
    &&& s.countrycode == row.countrycode
    &&& s.codec@ == Seq::<char>::empty()
    &&& s.bitrate == 0
    &&& s.votes == 0
    &&& s.bookmarked
}

/// The station a bookmark row stands for.
pub fn station_from_row(row: &BookmarkRow) -> (r: Station)
    ensures
        station_of(*row, r),
{
    Station {
        stationuuid: row.stationuuid.clone(),
        name: row.name.clone(),
        url: row.url.clone(),
        url_resolved: row.url_resolved.clone(),
        homepage: row.homepage.clone(),
        favicon: row.favicon.clone(),
        tags: row.tags.clone(),
        countrycode: row.countrycode.clone(),
        codec: String::new(),
        bitrate: 0,
        votes: 0,
        bookmarked: true,
    }
}

/// The rows that could be read (`Some`), in order.
pub open spec fn present<T>(rows: Seq<Option<T>>) -> Seq<T>
    decreases rows.len(),
{
    if rows.len() == 0 {
        Seq::empty()
    } else {
        match rows.last() {
            Some(x) => present(rows.drop_last()).push(x),
            None => present(rows.drop_last()),
        }
    }
}

/// The bookmarked stations from the rows read; a row that could not be read is
/// left out.
pub fn stations_from_rows(rows: &Vec<Option<BookmarkRow>>) -> (r: Vec<Station>)
    ensures
        r@.len() == present(rows@).len(),
        forall|i: int| 0 <= i < r@.len() ==> station_of(present(rows@)[i], #[trigger] r@[i]),
{
    let mut r: Vec<Station> = Vec::new();
    let n = rows.len();
    for i in 0..n
        invariant
            n == rows@.len(),
            r@.len() == present(rows@.subrange(0, i as int)).len(),
            forall|j: int|
                0 <= j < r@.len() ==> station_of(
                    present(rows@.subrange(0, i as int))[j],
                    #[trigger] r@[j],
                ),
    {
        proof {
            assert(rows@.subrange(0, i + 1).drop_last() =~= rows@.subrange(0, i as int));
        }
        match &rows[i] {
            Some(row) => {
                r.push(station_from_row(row));
            },
            None => {},
        }
    }
    proof {
        assert(rows@.subrange(0, n as int) =~= rows@);
    }
    r
}

/// The uuids that could be read, in order.
pub fn present_texts(rows: &Vec<Option<String>>) -> (r: Vec<String>)
    ensures
        r@ == present(rows@),
{
    let mut r: Vec<String> = Vec::new();
    let n = rows.len();
    for i in 0..n
        invariant
            n == rows@.len(),
            r@ == present(rows@.subrange(0, i as int)),
    {
        proof {
            assert(rows@.subrange(0, i + 1).drop_last() =~= rows@.subrange(0, i as int));
        }
        match &rows[i] {
            Some(u) => {
                r.push(u.clone());
            },
            None => {},
        }
    }
    proof {
        assert(rows@.subrange(0, n as int) =~= rows@);
    }
    r
}

/// The cached json of an artist, from the rows read under its name: the first
/// row, when there is a row and every row could be read.
pub open spec fn spec_cached_entry(rows: Seq<Option<String>>) -> Option<String> {
    if rows.len() > 0 && forall|i: int| 0 <= i < rows.len() ==> #[trigger] rows[i] is Some {
        rows[0]
    } else {
        None
    }
}

/// The cached json of an artist, from the rows read under its name.
pub fn cached_entry(rows: &Vec<Option<String>>) -> (r: Option<String>)
    ensures
        r == spec_cached_entry(rows@),
{
    let n = rows.len();
    for i in 0..n
        invariant
            n == rows@.len(),
            forall|j: int| 0 <= j < i ==> #[trigger] rows@[j] is Some,
    {
        if rows[i].is_none() {
            return None;
        }
    }
    if n == 0 {
        return None;
    }
    match &rows[0] {
        Some(d) => Some(d.clone()),
        None => None,
    }
}

/// The placeholder list for `n` values: `?` repeated `n` times, separated by commas.
pub open spec fn placeholders(n: nat) -> Seq<char> {
    Seq::new((2 * n - 1) as nat, |i: int| if i % 2 == 0 { '?' } else { ',' })
}

/// The statement that tells which of `n` uuids are bookmarked.
pub fn bookmarked_uuids_query(n: usize) -> (r: String)
    requires
        n > 0,
    ensures
        r@ == SELECT_BOOKMARKED_UUIDS@ + placeholders(n as nat) + ")"@,
{
    let mut list: String = "?".to_owned();
    let mut i: usize = 1;
    proof {
        reveal_strlit("?");
        assert(list@ =~= placeholders(1));
    }
    while i < n
        invariant
            1 <= i <= n,
            list@ == placeholders(i as nat),
        decreases n - i,
    {
        list.append(",?");
        proof {
            reveal_strlit(",?");
            assert(list@ =~= placeholders((i + 1) as nat));
        }
        i = i + 1;
    }
    let mut r: String = SELECT_BOOKMARKED_UUIDS.to_owned();
    r.append(list.as_str());
    r.append(")");
    r
}

/// The statement that tells which of `n` uuids are bookmarked, or `None` when
/// there is no uuid to ask about (then none is bookmarked).
pub fn bookmarked_uuids_lookup(n: usize) -> (r: Option<String>)
    ensures
        n == 0 ==> r is None,
        n > 0 ==> (r matches Some(q) && q@ == SELECT_BOOKMARKED_UUIDS@ + placeholders(n as nat)
            + ")"@),
{
    if n == 0 {
        None
    } else {
        Some(bookmarked_uuids_query(n))
    }
}

proof fn lemma_present_keeps_read_rows<T>(rows: Seq<Option<T>>, k: int)
    requires
        0 <= k < rows.len(),
        rows[k] is Some,
    ensures
        present(rows).contains(rows[k]->0),
    decreases rows.len(),
{
    let last = rows.len() - 1;
    if k == last {
        assert(present(rows)[present(rows).len() - 1] == rows[k]->0);
    } else {
        assert(rows.drop_last()[k] == rows[k]);
        lemma_present_keeps_read_rows(rows.drop_last(), k);
        let j = choose|j: int|
            0 <= j < present(rows.drop_last()).len() && present(rows.drop_last())[j] == rows[k]->0;
        match rows.last() {
            Some(x) => {
                assert(present(rows)[j] == rows[k]->0);
            },
            None => {},
        }
    }
}

/// The cached entry: a single readable row is the entry; when every row could
/// be read, the first is the entry; an unreadable row anywhere, or no row at
/// all, gives no entry.
pub proof fn law_cached_entry_rows(rows: Seq<Option<String>>, d: String, k: int)
    ensures
        spec_cached_entry(seq![Some(d)]) == Some(d),
        rows.len() > 0 && (forall|i: int| 0 <= i < rows.len() ==> #[trigger] rows[i] is Some)
            ==> spec_cached_entry(rows) == rows[0],
        0 <= k < rows.len() && rows[k] is None ==> spec_cached_entry(rows) is None,
        rows.len() == 0 ==> spec_cached_entry(rows) is None,
{
    let one = seq![Some(d)];
    assert(forall|i: int| 0 <= i < one.len() ==> #[trigger] one[i] is Some);
}

proof fn lemma_present_only_read_rows<T>(rows: Seq<Option<T>>, x: T)
    requires
        present(rows).contains(x),
    ensures
        exists|k: int| 0 <= k < rows.len() && #[trigger] rows[k] == Some(x),
    decreases rows.len(),
{
    let p = present(rows.drop_last());
    match rows.last() {
        Some(y) => {
            if y == x {
                assert(rows[rows.len() - 1] == Some(x));
            } else {
                let j = choose|j: int| 0 <= j < present(rows).len() && present(rows)[j] == x;
                assert(present(rows) == p.push(y));
                assert(p[j] == x);
                lemma_present_only_read_rows(rows.drop_last(), x);
                let k = choose|k: int| 0 <= k < rows.drop_last().len() && #[trigger] rows.drop_last()[k] == Some(x);
                assert(rows[k] == Some(x));
            }
        },
        None => {
            lemma_present_only_read_rows(rows.drop_last(), x);
            let k = choose|k: int| 0 <= k < rows.drop_last().len() && #[trigger] rows.drop_last()[k] == Some(x);
            assert(rows[k] == Some(x));
        },
    }
}

proof fn lemma_present_len<T>(rows: Seq<Option<T>>)
    ensures
        present(rows).len() <= rows.len(),
        (forall|i: int| 0 <= i < rows.len() ==> #[trigger] rows[i] is Some) ==> present(rows).len()
            == rows.len(),
    decreases rows.len(),
{
    if rows.len() > 0 {
        lemma_present_len(rows.drop_last());
        if forall|i: int| 0 <= i < rows.len() ==> #[trigger] rows[i] is Some {
            assert forall|i: int| 0 <= i < rows.drop_last().len() implies #[trigger] rows.drop_last()[i] is Some by {
                assert(rows.drop_last()[i] == rows[i]);
            }
            assert(rows[rows.len() - 1] is Some);
        }
    }
}

/// The rows kept are exactly the rows that could be read: a value is kept if
/// and only if some row read it; no more values are kept than rows were read,
/// and none is dropped when every row could be read.
pub proof fn law_present_keeps_exactly_read_rows<T>(rows: Seq<Option<T>>, x: T)
    ensures
        present(rows).contains(x) <==> exists|k: int| 0 <= k < rows.len() && #[trigger] rows[k] == Some(x),
        present(rows).len() <= rows.len(),
        (forall|i: int| 0 <= i < rows.len() ==> #[trigger] rows[i] is Some) ==> present(rows).len()
            == rows.len(),
{
    lemma_present_len(rows);
    if present(rows).contains(x) {
        lemma_present_only_read_rows(rows, x);
    }
    if exists|k: int| 0 <= k < rows.len() && #[trigger] rows[k] == Some(x) {
        let k = choose|k: int| 0 <= k < rows.len() && #[trigger] rows[k] == Some(x);
        lemma_present_keeps_read_rows(rows, k);
    }
}

/// The placeholder list for one value is `?`, and each further value adds `,?`;
/// it begins and ends with `?`.
pub proof fn law_placeholders_grow(n: nat)
    requires
        n >= 1,
    ensures
        placeholders(1) == seq!['?'],
        placeholders(n + 1) == placeholders(n) + seq![',', '?'],
        placeholders(n)[0] == '?',
        placeholders(n)[placeholders(n).len() - 1] == '?',
        placeholders(n).len() == 2 * n - 1,
{
    assert(placeholders(1) =~= seq!['?']);
    assert(placeholders(n + 1) =~= placeholders(n) + seq![',', '?']);
    assert(((2 * n - 2) as int) % 2 == 0);
}

/// A station whose uuid was read back from the bookmarks is marked as
/// bookmarked in the search results; one whose uuid was not is not.
pub proof fn law_read_bookmark_marks_search(
    stations: Seq<Station>,
    rows: Seq<Option<String>>,
    i: int,
)
    requires
        0 <= i < stations.len(),
    ensures
        (exists|k: int| 0 <= k < rows.len() && #[trigger] rows[k] == Some(stations[i].stationuuid))
            ==> spec_mark(stations, present(rows))[i].bookmarked,
        spec_mark(stations, present(rows))[i].bookmarked == listed(
            present(rows),
            stations[i].stationuuid@,
        ),
{
    if exists|k: int| 0 <= k < rows.len() && #[trigger] rows[k] == Some(stations[i].stationuuid) {
        let k = choose|k: int| 0 <= k < rows.len() && #[trigger] rows[k] == Some(stations[i].stationuuid);
        lemma_present_keeps_read_rows(rows, k);
        let p = present(rows);
        let j = choose|j: int| 0 <= j < p.len() && p[j] == stations[i].stationuuid;
        assert(p[j]@ == stations[i].stationuuid@);
    }
}

/// A bookmarked station read back from the values written for it keeps its
/// eight stored columns and is marked as bookmarked.
pub proof fn law_bookmark_read_back(station: Station, row: BookmarkRow, s: Station)
    requires
        seq![
            row.stationuuid,
            row.name,
            row.url,
            row.url_resolved,
            row.homepage,
            row.favicon,
            row.tags,
            row.countrycode,
        ] == seq![
            station.stationuuid,
            station.name,
            station.url,
            station.url_resolved,
            station.homepage,
            station.favicon,
            station.tags,
            station.countrycode,
        ],
        station_of(row, s),
    ensures
        s.stationuuid == station.stationuuid,
        s.name == station.name,
        s.url == station.url,
        s.url_resolved == station.url_resolved,
        s.homepage == station.homepage,
        s.favicon == station.favicon,
        s.tags == station.tags,
        s.countrycode == station.countrycode,
        s.bookmarked,
{
    let a = seq![
        row.stationuuid,
        row.name,
        row.url,
        row.url_resolved,
        row.homepage,
        row.favicon,
        row.tags,
        row.countrycode,
    ];
    let b = seq![
        station.stationuuid,
        station.name,
        station.url,
        station.url_resolved,
        station.homepage,
        station.favicon,
        station.tags,
        station.countrycode,
    ];
    assert(a[0] == b[0] && a[1] == b[1] && a[2] == b[2] && a[3] == b[3]);
    assert(a[4] == b[4] && a[5] == b[5] && a[6] == b[6] && a[7] == b[7]);
}

} // verus!
