use radio::artist::{ArtistInfo, ArtistLookup, LookupAction, LookupEvent};
use radio::fanarttv::{FATVArtistImages, FATVImage};
use radio::musicbrainz::{MBArtist, MBUrl, MBUrlRel};

fn artist_with(rels: Option<Vec<MBUrlRel>>) -> MBArtist {
    MBArtist { id: "mbid-1".to_string(), name: Some("Miles Davis".to_string()), country: None, relations: rels }
}

fn wikidata_rel(resource: Option<&str>) -> MBUrlRel {
    MBUrlRel {
        url_type: Some("wikidata".to_string()),
        url: Some(MBUrl { resource: resource.map(|s| s.to_string()) }),
    }
}

fn images() -> FATVArtistImages {
    FATVArtistImages {
        artistthumb: Some(vec![FATVImage { id: "1".to_string(), url: "https://img/1".to_string(), likes: "3".to_string() }]),
        artistbackground: None,
        musicbanner: None,
        musiclogo: Some(vec![]),
    }
}

fn cached() -> ArtistInfo {
    ArtistInfo { artist: None, images: None, bio: Some("cached bio".to_string()) }
}

#[test]
fn lookup_starts_with_cache() {
    let (_, a) = ArtistLookup::start("Miles Davis".to_string());
    match a {
        LookupAction::ReadCache { name } => assert_eq!(name, "Miles Davis"),
        other => panic!("{:?}", other),
    }
}

#[test]
fn cache_hit_answered_at_once() {
    let (s, _) = ArtistLookup::start("Miles Davis".to_string());
    let (s, a) = s.step(LookupEvent::CacheRead(Some(cached())));
    assert!(matches!(s, ArtistLookup::Finished));
    match a {
        LookupAction::Reply { answer: Some(info) } => assert_eq!(info.bio.as_deref(), Some("cached bio")),
        other => panic!("{:?}", other),
    }
}

#[test]
fn unknown_artist_answers_nothing() {
    let (s, _) = ArtistLookup::start("nobody".to_string());
    let (s, a) = s.step(LookupEvent::CacheRead(None));
    match &a {
        LookupAction::FindArtist { name } => assert_eq!(name, "nobody"),
        other => panic!("{:?}", other),
    }
    let (s, a) = s.step(LookupEvent::ArtistFound(None));
    assert!(matches!(s, ArtistLookup::Finished));
    assert!(matches!(a, LookupAction::Reply { answer: None }));
}

#[test]
fn full_lookup_with_wikidata() {
    let (s, _) = ArtistLookup::start("Miles Davis".to_string());
    let (s, _) = s.step(LookupEvent::CacheRead(None));
    let found = artist_with(Some(vec![wikidata_rel(Some("https://www.wikidata.org/wiki/Q93341"))]));
    let (s, a) = s.step(LookupEvent::ArtistFound(Some(found)));
    match &a {
        LookupAction::FetchBio { wikidata_url } => assert_eq!(wikidata_url, "https://www.wikidata.org/wiki/Q93341"),
        other => panic!("{:?}", other),
    }
    let (s, a) = s.step(LookupEvent::BioFetched(Some("a trumpeter".to_string())));
    match &a {
        LookupAction::FetchImages { mb_artist_id } => assert_eq!(mb_artist_id, "mbid-1"),
        other => panic!("{:?}", other),
    }
    let (s, a) = s.step(LookupEvent::ImagesFetched(Some(images())));
    match &a {
        LookupAction::WriteCache { name, info } => {
            assert_eq!(name, "Miles Davis");
            assert_eq!(info.bio.as_deref(), Some("a trumpeter"));
            assert_eq!(info.artist.as_ref().unwrap().id, "mbid-1");
            assert_eq!(info.images.as_ref().unwrap().artistthumb.as_ref().unwrap()[0].url, "https://img/1");
        }
        other => panic!("{:?}", other),
    }
    let (s, a) = s.step(LookupEvent::CacheWritten);
    assert!(matches!(s, ArtistLookup::Finished));
    match a {
        LookupAction::Reply { answer: Some(info) } => {
            assert_eq!(info.bio.as_deref(), Some("a trumpeter"));
            assert_eq!(info.artist.unwrap().name.as_deref(), Some("Miles Davis"));
            assert_eq!(info.images.unwrap().musiclogo.unwrap().len(), 0);
        }
        other => panic!("{:?}", other),
    }
}

#[test]
fn lookup_without_wikidata_skips_bio() {
    let (s, _) = ArtistLookup::start("x".to_string());
    let (s, _) = s.step(LookupEvent::CacheRead(None));
    let (s, a) = s.step(LookupEvent::ArtistFound(Some(artist_with(None))));
    assert!(matches!(a, LookupAction::FetchImages { .. }));
    let (s, a) = s.step(LookupEvent::ImagesFetched(None));
    match &a {
        LookupAction::WriteCache { info, .. } => {
            assert!(info.bio.is_none());
            assert!(info.images.is_none());
        }
        other => panic!("{:?}", other),
    }
    let (_, a) = s.step(LookupEvent::CacheWritten);
    assert!(matches!(a, LookupAction::Reply { answer: Some(_) }));
}

#[test]
fn wikidata_without_resource_aborts() {
    let (s, _) = ArtistLookup::start("x".to_string());
    let (s, _) = s.step(LookupEvent::CacheRead(None));
    let (s, a) = s.step(LookupEvent::ArtistFound(Some(artist_with(Some(vec![wikidata_rel(None)])))));
    assert!(matches!(s, ArtistLookup::Finished));
    assert!(matches!(a, LookupAction::Abort));
}

#[test]
fn unexpected_event_ends_without_answer() {
    let (s, _) = ArtistLookup::start("x".to_string());
    let (s, a) = s.step(LookupEvent::CacheWritten);
    assert!(matches!(s, ArtistLookup::Finished));
    assert!(matches!(a, LookupAction::Reply { answer: None }));
    let (s, a) = s.step(LookupEvent::CacheRead(Some(cached())));
    assert!(matches!(s, ArtistLookup::Finished));
    assert!(matches!(a, LookupAction::Reply { answer: None }));
}

#[test]
fn lookup_ends_within_five_reports() {
    let (mut s, _) = ArtistLookup::start("x".to_string());
    let events = vec![
        LookupEvent::CacheRead(None),
        LookupEvent::ArtistFound(Some(artist_with(Some(vec![wikidata_rel(Some("https://w/Q1"))])))),
        LookupEvent::BioFetched(None),
        LookupEvent::ImagesFetched(None),
        LookupEvent::CacheWritten,
    ];
    for e in events {
        let (s2, _) = s.step(e);
        s = s2;
    }
    assert!(matches!(s, ArtistLookup::Finished));
}

#[test]
fn artist_info_clone_keeps_fields() {
    let info = ArtistInfo { artist: Some(artist_with(Some(vec![wikidata_rel(Some("r"))]))), images: Some(images()), bio: None };
    let c = info.clone();
    assert_eq!(c.artist.unwrap().relations.unwrap()[0].url.as_ref().unwrap().resource.as_deref(), Some("r"));
    assert_eq!(c.images.unwrap().artistthumb.unwrap()[0].likes, "3");
}
