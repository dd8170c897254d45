use radio::tuner::{
    api_endpoints, endpoint_for_srv_target, is_listed, mark_bookmarked, station_uuids,
    stations_with_bookmarks, Station, StationsSearchQuery, Tuner,
};

fn station(uuid: &str, bookmarked: bool) -> Station {
    Station {
        stationuuid: uuid.to_string(),
        name: format!("name {}", uuid),
        url: format!("http://{}/stream", uuid),
        url_resolved: format!("http://{}/resolved", uuid),
        homepage: "https://home".to_string(),
        favicon: "https://home/icon.png".to_string(),
        tags: "jazz,blues".to_string(),
        countrycode: "FR".to_string(),
        codec: "MP3".to_string(),
        bitrate: 128,
        votes: 42,
        bookmarked,
    }
}

fn same_but_mark(a: &Station, b: &Station) {
    assert_eq!(a.stationuuid, b.stationuuid);
    assert_eq!(a.name, b.name);
    assert_eq!(a.url, b.url);
    assert_eq!(a.url_resolved, b.url_resolved);
    assert_eq!(a.homepage, b.homepage);
    assert_eq!(a.favicon, b.favicon);
    assert_eq!(a.tags, b.tags);
    assert_eq!(a.countrycode, b.countrycode);
    assert_eq!(a.codec, b.codec);
    assert_eq!(a.bitrate, b.bitrate);
    assert_eq!(a.votes, b.votes);
}

#[test]
fn default_query_is_twenty_jazz_stations() {
    let q = StationsSearchQuery::default();
    assert_eq!(q.name, "Jazz");
    assert_eq!(q.limit, 20);
}

#[test]
fn srv_target_becomes_https_endpoint() {
    assert_eq!(
        endpoint_for_srv_target("de1.api.radio-browser.info."),
        "https://de1.api.radio-browser.info"
    );
}

#[test]
fn endpoints_keep_lookup_order() {
    let targets = vec![
        "nl1.api.radio-browser.info.".to_string(),
        "at1.api.radio-browser.info.".to_string(),
    ];
    let e = api_endpoints(&targets);
    assert_eq!(
        e,
        vec!["https://nl1.api.radio-browser.info".to_string(), "https://at1.api.radio-browser.info".to_string()]
    );
    assert!(api_endpoints(&vec![]).is_empty());
}

#[test]
fn tuner_asks_first_endpoint() {
    let t = Tuner::new(&vec!["https://a".to_string(), "https://b".to_string()]);
    assert_eq!(t.api_endpoint(), "https://a");
}

#[test]
fn search_url_format() {
    let t = Tuner::new(&vec!["https://de1.api.radio-browser.info".to_string()]);
    let q = StationsSearchQuery::default();
    assert_eq!(
        t.search_url(&q),
        "https://de1.api.radio-browser.info/json/stations/byname/Jazz?limit=20&order=votes&reverse=true"
    );
    let q = StationsSearchQuery { name: "fip".to_string(), limit: 255 };
    assert_eq!(
        t.search_url(&q),
        "https://de1.api.radio-browser.info/json/stations/byname/fip?limit=255&order=votes&reverse=true"
    );
    let q = StationsSearchQuery { name: "".to_string(), limit: 0 };
    assert_eq!(
        t.search_url(&q),
        "https://de1.api.radio-browser.info/json/stations/byname/?limit=0&order=votes&reverse=true"
    );
}

#[test]
fn uuids_in_order() {
    let s = vec![station("u1", false), station("u2", true)];
    assert_eq!(station_uuids(&s), vec!["u1".to_string(), "u2".to_string()]);
}

#[test]
fn listed_uuids() {
    let l = vec!["u1".to_string(), "u3".to_string()];
    assert!(is_listed(&l, &"u3".to_string()));
    assert!(!is_listed(&l, &"u2".to_string()));
    assert!(!is_listed(&vec![], &"u2".to_string()));
}

#[test]
fn marks_follow_the_bookmark_list() {
    let original = vec![station("u1", false), station("u2", true), station("u3", false)];
    let mut s = original.clone();
    mark_bookmarked(&mut s, &vec!["u3".to_string(), "u1".to_string()]);
    assert_eq!(s.len(), 3);
    assert!(s[0].bookmarked);
    assert!(!s[1].bookmarked);
    assert!(s[2].bookmarked);
    for i in 0..3 {
        same_but_mark(&s[i], &original[i]);
    }
}

#[test]
fn marking_twice_is_marking_once() {
    let list = vec!["u2".to_string()];
    let mut once = vec![station("u1", true), station("u2", false)];
    mark_bookmarked(&mut once, &list);
    let mut twice = once.clone();
    mark_bookmarked(&mut twice, &list);
    for i in 0..2 {
        assert_eq!(once[i].bookmarked, twice[i].bookmarked);
        same_but_mark(&once[i], &twice[i]);
    }
    assert!(!once[0].bookmarked);
    assert!(once[1].bookmarked);
}

#[test]
fn unreadable_bookmarks_leave_results_unchanged() {
    let s = vec![station("u1", true), station("u2", false)];
    let r = stations_with_bookmarks(s.clone(), None);
    assert!(r[0].bookmarked);
    assert!(!r[1].bookmarked);
    let r = stations_with_bookmarks(s, Some(vec!["u2".to_string()]));
    assert!(!r[0].bookmarked);
    assert!(r[1].bookmarked);
}

#[test]
fn empty_search_stays_empty() {
    assert!(stations_with_bookmarks(vec![], Some(vec!["u".to_string()])).is_empty());
}

#[test]
fn tuner_from_srv_targets_asks_first_without_root_dot() {
    let targets = vec!["fi1.api.radio-browser.info.".to_string(), "de1.api.radio-browser.info.".to_string()];
    let t = Tuner::new(&api_endpoints(&targets));
    assert_eq!(t.api_endpoint(), "https://fi1.api.radio-browser.info");
}
