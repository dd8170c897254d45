use radio::fanarttv::artist_images_url;
use radio::musicbrainz::{
    artist_detail_query, artist_detail_url, artist_search_query, artist_search_url,
    first_artist_id, releases_query, releases_url, wikidata_link, MBArtist,
    MBArtistSearchResult, MBSearchArtist, MBUrl, MBUrlRel, WikidataLink,
};
use radio::wikipedia::{enwiki_url, extract_from_summary, summary_url, summary_url_for, summary_url_from_sitelinks, wikidata_api_url};

fn pairs(v: Vec<(String, String)>) -> Vec<(String, String)> {
    v
}

fn p(a: &str, b: &str) -> (String, String) {
    (a.to_string(), b.to_string())
}

fn rel(t: Option<&str>, url: Option<Option<&str>>) -> MBUrlRel {
    MBUrlRel {
        url_type: t.map(|s| s.to_string()),
        url: url.map(|r| MBUrl { resource: r.map(|s| s.to_string()) }),
    }
}

fn artist(relations: Option<Vec<MBUrlRel>>) -> MBArtist {
    MBArtist {
        id: "5b11f4ce-a62d-471e-81fc-a69a8278c7da".to_string(),
        name: Some("Nirvana".to_string()),
        country: Some("US".to_string()),
        relations,
    }
}

#[test]
fn musicbrainz_addresses() {
    assert_eq!(artist_search_url(), "https://musicbrainz.org/ws/2/artist");
    assert_eq!(artist_detail_url("abc"), "https://musicbrainz.org/ws/2/artist/abc");
    assert_eq!(releases_url(), "https://musicbrainz.org/ws/2/release");
}

#[test]
fn musicbrainz_queries() {
    assert_eq!(
        pairs(artist_search_query("Miles Davis")),
        vec![p("query", "Miles Davis"), p("limit", "1"), p("fmt", "json")]
    );
    assert_eq!(pairs(artist_detail_query()), vec![p("inc", "url-rels"), p("fmt", "json")]);
    assert_eq!(
        pairs(releases_query("id-1")),
        vec![
            p("fmt", "json"),
            p("artist", "id-1"),
            p("status", "official"),
            p("type", "album"),
            p("offset", "0"),
            p("limit", "100"),
        ]
    );
}

#[test]
fn first_artist_of_search() {
    let none = MBArtistSearchResult { count: 0, offset: 0, artists: vec![] };
    assert_eq!(first_artist_id(&none), None);
    let two = MBArtistSearchResult {
        count: 2,
        offset: 0,
        artists: vec![MBSearchArtist { id: "a".to_string() }, MBSearchArtist { id: "b".to_string() }],
    };
    assert_eq!(first_artist_id(&two), Some("a".to_string()));
}

#[test]
fn wikidata_link_absent_without_relations() {
    assert!(matches!(wikidata_link(&artist(None)), WikidataLink::Absent));
    assert!(matches!(wikidata_link(&artist(Some(vec![]))), WikidataLink::Absent));
    let other = vec![rel(Some("official homepage"), Some(Some("https://nirvana.com")))];
    assert!(matches!(wikidata_link(&artist(Some(other))), WikidataLink::Absent));
}

#[test]
fn wikidata_link_takes_first_wikidata_relation() {
    let rels = vec![
        rel(None, Some(Some("https://x"))),
        rel(Some("discogs"), Some(Some("https://discogs"))),
        rel(Some("wikidata"), Some(Some("https://www.wikidata.org/wiki/Q11649"))),
        rel(Some("wikidata"), Some(Some("https://www.wikidata.org/wiki/Q2"))),
    ];
    match wikidata_link(&artist(Some(rels))) {
        WikidataLink::Resource(r) => assert_eq!(r, "https://www.wikidata.org/wiki/Q11649"),
        other => panic!("unexpected {:?}", other),
    }
}

#[test]
fn wikidata_link_first_relation_without_url_is_absent() {
    let rels = vec![
        rel(Some("wikidata"), None),
        rel(Some("wikidata"), Some(Some("https://www.wikidata.org/wiki/Q2"))),
    ];
    assert!(matches!(wikidata_link(&artist(Some(rels))), WikidataLink::Absent));
}

#[test]
fn wikidata_link_without_resource() {
    let rels = vec![rel(Some("wikidata"), Some(None))];
    assert!(matches!(wikidata_link(&artist(Some(rels))), WikidataLink::MissingResource));
}

#[test]
fn fanart_address() {
    assert_eq!(artist_images_url("abc-1"), "http://webservice.fanart.tv/v3/music/abc-1");
}

#[test]
fn wikidata_address_from_page() {
    assert_eq!(
        wikidata_api_url("https://www.wikidata.org/wiki/Q28974"),
        "https://wikidata.org/w/rest.php/wikibase/v0/entities/items/Q28974?_fields=sitelinks"
    );
}

#[test]
fn summary_address_from_page() {
    assert_eq!(
        summary_url("https://en.wikipedia.org/wiki/Miles_Davis"),
        "https://en.wikipedia.org/api/rest_v1/page/summary/Miles_Davis"
    );
    assert_eq!(summary_url_for(None), None);
}

#[test]
fn enwiki_url_read_from_sitelinks() {
    let answer = r#"{"sitelinks":{"frwiki":{"title":"Miles Davis","url":"https://fr.wikipedia.org/wiki/Miles_Davis"},"enwiki":{"title":"Miles Davis","badges":[],"url":"https://en.wikipedia.org/wiki/Miles_Davis"}}}"#;
    assert_eq!(enwiki_url(answer), Some("https://en.wikipedia.org/wiki/Miles_Davis".to_string()));
    assert_eq!(
        summary_url_from_sitelinks(answer),
        Some("https://en.wikipedia.org/api/rest_v1/page/summary/Miles_Davis".to_string())
    );
}

#[test]
fn enwiki_url_missing() {
    assert_eq!(enwiki_url(r#"{"sitelinks":{"frwiki":{"url":"https://fr.wikipedia.org/wiki/X"}}}"#), None);
    assert_eq!(enwiki_url(r#"{"sitelinks":{"enwiki":{"url":12}}}"#), None);
    assert_eq!(enwiki_url(r#"{"sitelinks":[1,2]}"#), None);
    assert_eq!(enwiki_url("not json"), None);
    assert_eq!(summary_url_from_sitelinks("not json"), None);
    assert_eq!(summary_url_from_sitelinks("{}"), None);
}

#[test]
fn extract_read_from_summary() {
    assert_eq!(
        extract_from_summary(r#"{"title":"Miles Davis","extract":"Miles Dewey Davis III was an American trumpeter."}"#),
        Some("Miles Dewey Davis III was an American trumpeter.".to_string())
    );
    assert_eq!(extract_from_summary(r#"{"title":"x"}"#), None);
    assert_eq!(extract_from_summary(r#"{"extract":null}"#), None);
    assert_eq!(extract_from_summary(""), None);
}
