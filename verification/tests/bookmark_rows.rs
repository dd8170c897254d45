use radio::bookmarks::bookmarked_uuids_lookup;
use radio::bookmarks::{
    bookmark_values, bookmarked_uuids_query, cached_entry, present_texts, station_from_row,
    stations_from_rows, BookmarkRow, SELECT_BOOKMARKED_UUIDS,
};
use radio::tuner::Station;

fn row(uuid: &str) -> BookmarkRow {
    BookmarkRow {
        stationuuid: uuid.to_string(),
        name: "FIP".to_string(),
        url: "http://fip/stream".to_string(),
        url_resolved: "http://fip/resolved".to_string(),
        homepage: "https://fip.fr".to_string(),
        favicon: "https://fip.fr/icon".to_string(),
        tags: "eclectic".to_string(),
        countrycode: "FR".to_string(),
    }
}

#[test]
fn uuid_query_has_one_placeholder_per_uuid() {
    assert_eq!(
        bookmarked_uuids_query(1),
        "SELECT stationuuid FROM bookmarked_stations WHERE stationuuid IN (?)"
    );
    assert_eq!(
        bookmarked_uuids_query(3),
        "SELECT stationuuid FROM bookmarked_stations WHERE stationuuid IN (?,?,?)"
    );
    let q = bookmarked_uuids_query(20);
    assert!(q.starts_with(SELECT_BOOKMARKED_UUIDS));
    assert_eq!(q.matches('?').count(), 20);
    assert_eq!(q.matches(',').count(), 19);
}

#[test]
fn bookmark_values_in_column_order() {
    let s = Station {
        stationuuid: "id".to_string(),
        name: "n".to_string(),
        url: "u".to_string(),
        url_resolved: "ur".to_string(),
        homepage: "h".to_string(),
        favicon: "f".to_string(),
        tags: "t".to_string(),
        countrycode: "c".to_string(),
        codec: "AAC".to_string(),
        bitrate: 64,
        votes: 3,
        bookmarked: false,
    };
    assert_eq!(bookmark_values(&s), vec!["id", "n", "u", "ur", "h", "f", "t", "c"]);
}

#[test]
fn row_becomes_bookmarked_station() {
    let s = station_from_row(&row("abc"));
    assert_eq!(s.stationuuid, "abc");
    assert_eq!(s.name, "FIP");
    assert_eq!(s.url, "http://fip/stream");
    assert_eq!(s.url_resolved, "http://fip/resolved");
    assert_eq!(s.homepage, "https://fip.fr");
    assert_eq!(s.favicon, "https://fip.fr/icon");
    assert_eq!(s.tags, "eclectic");
    assert_eq!(s.countrycode, "FR");
    assert_eq!(s.codec, "");
    assert_eq!(s.bitrate, 0);
    assert_eq!(s.votes, 0);
    assert!(s.bookmarked);
}

#[test]
fn bookmark_read_back_keeps_columns() {
    let original = station_from_row(&row("x"));
    let v = bookmark_values(&original);
    let back = station_from_row(&BookmarkRow {
        stationuuid: v[0].clone(),
        name: v[1].clone(),
        url: v[2].clone(),
        url_resolved: v[3].clone(),
        homepage: v[4].clone(),
        favicon: v[5].clone(),
        tags: v[6].clone(),
        countrycode: v[7].clone(),
    });
    assert_eq!(back.stationuuid, original.stationuuid);
    assert_eq!(back.url_resolved, original.url_resolved);
    assert_eq!(back.countrycode, original.countrycode);
    assert!(back.bookmarked);
}

#[test]
fn unreadable_rows_are_skipped() {
    let rows = vec![Some(row("a")), None, Some(row("c"))];
    let s = stations_from_rows(&rows);
    assert_eq!(s.len(), 2);
    assert_eq!(s[0].stationuuid, "a");
    assert_eq!(s[1].stationuuid, "c");
    assert!(stations_from_rows(&vec![]).is_empty());
}

#[test]
fn present_uuids_in_order() {
    let rows = vec![None, Some("b".to_string()), Some("a".to_string()), None];
    assert_eq!(present_texts(&rows), vec!["b".to_string(), "a".to_string()]);
}

#[test]
fn cache_entry_is_first_row() {
    assert_eq!(
        cached_entry(&vec![Some("{\"first\":1}".to_string()), Some("{}".to_string())]),
        Some("{\"first\":1}".to_string())
    );
}

#[test]
fn cache_entry_missing_or_unreadable() {
    assert_eq!(cached_entry(&vec![]), None);
    assert_eq!(cached_entry(&vec![Some("{}".to_string()), None]), None);
    assert_eq!(cached_entry(&vec![None]), None);
}

#[test]
fn uuid_lookup_only_for_some_uuids() {
    assert_eq!(bookmarked_uuids_lookup(0), None);
    assert_eq!(
        bookmarked_uuids_lookup(2),
        Some("SELECT stationuuid FROM bookmarked_stations WHERE stationuuid IN (?,?)".to_string())
    );
}
