//! MusicBrainz records and the requests made to the MusicBrainz web service.
use vstd::prelude::*;

use crate::text::{join_texts, same_text};
use vstd::string::*;

verus! {

/// Base address of the MusicBrainz web service.
pub const MUSICBRAINZ_API_ENDPOINT: &'static str = "https://musicbrainz.org/ws/2/";

/// Answer of an artist search.
#[derive(Debug)]
pub struct MBArtistSearchResult {
    pub count: u64,
    pub offset: u64,
    pub artists: Vec<MBSearchArtist>,
}

/// One artist of a search answer.
#[derive(Debug)]
pub struct MBSearchArtist {
    pub id: String,
}

/// An artist with its url relations.
#[derive(Debug)]
pub struct MBArtist {
    pub id: String,
    pub name: Option<String>,
    pub country: Option<String>,
    pub relations: Option<Vec<MBUrlRel>>,
}

/// A relation of an artist to a url (wikidata, homepage, ...).
#[derive(Debug)]
pub struct MBUrlRel {
    pub url_type: Option<String>,
    pub url: Option<MBUrl>,
}

/// The url of a relation.
#[derive(Debug)]
pub struct MBUrl {
    pub resource: Option<String>,
}

/// A page of the releases of an artist.
#[derive(Debug)]
pub struct MBReleases {
    pub releases: Option<Vec<MBRelease>>,
    pub offset: u64,
    pub count: u64,
}

/// One release.
#[derive(Debug)]
pub struct MBRelease {
    pub id: String,
    pub date: Option<String>,
    pub title: Option<String>,
    pub country: Option<String>,
    pub cover_art_archive: Option<MBCovertArtArchive>,
}

/// What the cover art archive holds for a release.
#[derive(Debug)]
pub struct MBCovertArtArchive {
    pub darkened: bool,
    pub back: bool,
    pub front: bool,
    pub artwork: bool,
    pub count: u64,
}

/// The contents of an optional vector, as a sequence.
pub open spec fn opt_seq<T>(o: Option<Vec<T>>) -> Option<Seq<T>> {
    match o {
        Some(v) => Some(v@),
        None => None,
    }
}

impl MBArtist {
    /// Equal field by field, vectors compared by their contents.
    pub open spec fn same_as(self, other: MBArtist) -> bool {
        &&& self.id == other.id
        &&& self.name == other.name
        &&& self.country == other.country
        &&& opt_seq(self.relations) == opt_seq(other.relations)
    }
}

impl MBArtistSearchResult {
    /// Equal field by field, vectors compared by their contents.
    pub open spec fn same_as(self, other: MBArtistSearchResult) -> bool {
        &&& self.count == other.count
        &&& self.offset == other.offset
        &&& self.artists@ == other.artists@
    }
}

impl MBReleases {
    /// Equal field by field, vectors compared by their contents.
    pub open spec fn same_as(self, other: MBReleases) -> bool {
        &&& opt_seq(self.releases) == opt_seq(other.releases)
        &&& self.offset == other.offset
        &&& self.count == other.count
    }
}

/// A copy of an optional text.
pub fn copy_opt_text(o: &Option<String>) -> (r: Option<String>)
    ensures
        r == *o,
{
    match o {
        Some(s) => Some(s.clone()),
        None => None,
    }
}

impl Clone for MBUrl {
    fn clone(&self) -> (r: Self)
        ensures
            r == *self,
    {
        MBUrl { resource: copy_opt_text(&self.resource) }
    }
}

impl Clone for MBUrlRel {
    fn clone(&self) -> (r: Self)
        ensures
            r == *self,
    {
        let url = match &self.url {
            Some(u) => Some(u.clone()),
            None => None,
        };
        MBUrlRel { url_type: copy_opt_text(&self.url_type), url }
    }
}

impl Clone for MBArtist {
    fn clone(&self) -> (r: Self)
        ensures
            r.same_as(*self),
    {
        let relations = match &self.relations {
            Some(rels) => {
                let c = rels.clone();
                proof {
                    assert(c@ =~= rels@);
                }
                Some(c)
            },
            None => None,
        };
        MBArtist {
            id: self.id.clone(),
            name: copy_opt_text(&self.name),
            country: copy_opt_text(&self.country),
            relations,
        }
    }
}

impl Clone for MBSearchArtist {
    fn clone(&self) -> (r: Self)
        ensures
            r == *self,
    {
        MBSearchArtist { id: self.id.clone() }
    }
}

impl Clone for MBArtistSearchResult {
    fn clone(&self) -> (r: Self)
        ensures
            r.same_as(*self),
    {
        let artists = self.artists.clone();
        proof {
            assert(artists@ =~= self.artists@);
        }
        MBArtistSearchResult { count: self.count, offset: self.offset, artists }
    }
}

impl Clone for MBCovertArtArchive {
    fn clone(&self) -> (r: Self)
        ensures
            r == *self,
    {
        MBCovertArtArchive {
            darkened: self.darkened,
            back: self.back,
            front: self.front,
            artwork: self.artwork,
            count: self.count,
        }
    }
}

impl Clone for MBRelease {
    fn clone(&self) -> (r: Self)
        ensures
            r == *self,
    {
        let cover_art_archive = match &self.cover_art_archive {
            Some(c) => Some(c.clone()),
            None => None,
        };
        MBRelease {
            id: self.id.clone(),
            date: copy_opt_text(&self.date),
            title: copy_opt_text(&self.title),
            country: copy_opt_text(&self.country),
            cover_art_archive,
        }
    }
}

impl Clone for MBReleases {
    fn clone(&self) -> (r: Self)
        ensures
            r.same_as(*self),
    {
        let releases = match &self.releases {
            Some(rs) => {
                let c = rs.clone();
                proof {
                    assert(c@ =~= rs@);
                }
                Some(c)
            },
            None => None,
        };
        MBReleases { releases, offset: self.offset, count: self.count }
    }
}

/// A query parameter as a pair of texts.
pub open spec fn param_texts(p: (String, String)) -> (Seq<char>, Seq<char>) {
    (p.0@, p.1@)
}

/// The views of a list of query parameters.
pub open spec fn params_view(v: Vec<(String, String)>) -> Seq<(Seq<char>, Seq<char>)> {
    v@.map_values(|p: (String, String)| param_texts(p))
}

/// A query parameter built from two texts.
pub fn param(name: &str, value: &str) -> (r: (String, String))
    ensures
        r.0@ == name@,
        r.1@ == value@,
{
    (name.to_owned(), value.to_owned())
}

/// Address of the artist search: the service base followed by `artist`.
pub fn artist_search_url() -> (r: String)
    ensures
        r@ == MUSICBRAINZ_API_ENDPOINT@ + "artist"@,
{
    join_texts(MUSICBRAINZ_API_ENDPOINT, "artist")
}

/// Query of the artist search: the first artist matching `artist`, as json.
pub fn artist_search_query(artist: &str) -> (r: Vec<(String, String)>)
    ensures
        params_view(r) == seq![("query"@, artist@), ("limit"@, "1"@), ("fmt"@, "json"@)],
{
    let mut r: Vec<(String, String)> = Vec::new();
    r.push(param("query", artist));
    r.push(param("limit", "1"));
    r.push(param("fmt", "json"));
    proof {
        assert(params_view(r) =~= seq![("query"@, artist@), ("limit"@, "1"@), ("fmt"@, "json"@)]);
    }
    r
}

/// The id of the best match of an artist search, when the search found any artist.
pub fn first_artist_id(result: &MBArtistSearchResult) -> (r: Option<String>)
    ensures
        result.artists@.len() == 0 ==> r is None,
        result.artists@.len() > 0 ==> r == Some(result.artists@[0].id),
{
    if result.artists.len() > 0 {
        Some(result.artists[0].id.clone())
    } else {
        None
    }
}

/// Address of the details of one artist: the search address, `/`, then the id.
pub fn artist_detail_url(artist_id: &str) -> (r: String)
    ensures
        r@ == MUSICBRAINZ_API_ENDPOINT@ + "artist"@ + "/"@ + artist_id@,
{
    let mut r = artist_search_url();
    r.append("/");
    r.append(artist_id);
    r
}

/// Query of the artist details: with the url relations, as json.
pub fn artist_detail_query() -> (r: Vec<(String, String)>)
    ensures
        params_view(r) == seq![("inc"@, "url-rels"@), ("fmt"@, "json"@)],
{
    let mut r: Vec<(String, String)> = Vec::new();
    r.push(param("inc", "url-rels"));
    r.push(param("fmt", "json"));
    proof {
        assert(params_view(r) =~= seq![("inc"@, "url-rels"@), ("fmt"@, "json"@)]);
    }
    r
}

/// Address of the release search: the service base followed by `release`.
pub fn releases_url() -> (r: String)
    ensures
        r@ == MUSICBRAINZ_API_ENDPOINT@ + "release"@,
{
    join_texts(MUSICBRAINZ_API_ENDPOINT, "release")
}

/// Query of the release search: the first hundred official albums of the artist.
pub fn releases_query(artist_id: &str) -> (r: Vec<(String, String)>)
    ensures
        params_view(r) == seq![
            ("fmt"@, "json"@),
            ("artist"@, artist_id@),
            ("status"@, "official"@),
            ("type"@, "album"@),
            ("offset"@, "0"@),
            ("limit"@, "100"@),
        ],
{
    let mut r: Vec<(String, String)> = Vec::new();
    r.push(param("fmt", "json"));
    r.push(param("artist", artist_id));
    r.push(param("status", "official"));
    r.push(param("type", "album"));
    r.push(param("offset", "0"));
    r.push(param("limit", "100"));
    proof {
        assert(params_view(r) =~= seq![
            ("fmt"@, "json"@),
            ("artist"@, artist_id@),
            ("status"@, "official"@),
            ("type"@, "album"@),
            ("offset"@, "0"@),
            ("limit"@, "100"@),
        ]);
    }
    r
}

/// What an artist's relations say of its wikidata page.
#[derive(Debug)]
pub enum WikidataLink {
    /// No relation of type `wikidata`, or the first one has no url.
    Absent,
    /// The resource of the first `wikidata` relation.
    Resource(String),
    /// The first `wikidata` relation has a url without a resource.
    MissingResource,
}

/// Whether a relation is of type `wikidata`.
pub open spec fn is_wikidata(rel: MBUrlRel) -> bool {
    rel.url_type matches Some(t) && t@ == "wikidata"@
}

/// The first relation of type `wikidata`, if any.
pub open spec fn first_wikidata(rels: Seq<MBUrlRel>) -> Option<MBUrlRel>
    decreases rels.len(),
{
    if rels.len() == 0 {
        None
    } else if is_wikidata(rels[0]) {
        Some(rels[0])
    } else {
        first_wikidata(rels.drop_first())
    }
}

/// What `wikidata_link` returns for an artist.
pub open spec fn spec_wikidata_link(artist: MBArtist) -> WikidataLink {
    match artist.relations {
        None => WikidataLink::Absent,
        Some(rels) => match first_wikidata(rels@) {
            None => WikidataLink::Absent,
            Some(rel) => match rel.url {
                None => WikidataLink::Absent,
                Some(u) => match u.resource {
                    None => WikidataLink::MissingResource,
                    Some(res) => WikidataLink::Resource(res),
                },
            },
        },
    }
}

/// Whether a relation's type is the text `wikidata`.
pub open spec fn typed_wikidata(rel: MBUrlRel) -> bool {
    &&& rel.url_type is Some
    &&& rel.url_type->0@ == "wikidata"@
}

proof fn lemma_first_wikidata_at(rels: Seq<MBUrlRel>, k: int)
    requires
        0 <= k < rels.len(),
        typed_wikidata(rels[k]),
        forall|j: int| 0 <= j < k ==> !typed_wikidata(#[trigger] rels[j]),
    ensures
        first_wikidata(rels) == Some(rels[k]),
    decreases k,
{
    if k > 0 {
        assert(!typed_wikidata(rels[0]));
        let rest = rels.drop_first();
        assert forall|j: int| 0 <= j < k - 1 implies !typed_wikidata(#[trigger] rest[j]) by {
            assert(rest[j] == rels[j + 1]);
        }
        lemma_first_wikidata_at(rest, k - 1);
    }
}

proof fn lemma_first_wikidata_none(rels: Seq<MBUrlRel>)
    requires
        forall|j: int| 0 <= j < rels.len() ==> !typed_wikidata(#[trigger] rels[j]),
    ensures
        first_wikidata(rels) is None,
    decreases rels.len(),
{
    if rels.len() > 0 {
        assert(!typed_wikidata(rels[0]));
        let rest = rels.drop_first();
        assert forall|j: int| 0 <= j < rest.len() implies !typed_wikidata(#[trigger] rest[j]) by {
            assert(rest[j] == rels[j + 1]);
        }
        lemma_first_wikidata_none(rest);
    }
}

/// The wikidata page of an artist comes from its first relation typed
/// `wikidata`, wherever that relation stands in the list: its resource when
/// its url has one, `MissingResource` when its url has none, `Absent` when it
/// has no url.
pub proof fn law_wikidata_link_first_typed(artist: MBArtist, k: int)
    requires
        artist.relations is Some,
        0 <= k < artist.relations->0@.len(),
        typed_wikidata(artist.relations->0@[k]),
        forall|j: int| 0 <= j < k ==> !typed_wikidata(#[trigger] artist.relations->0@[j]),
    ensures
        (match artist.relations->0@[k].url {
            Some(u) => match u.resource {
                Some(r) => spec_wikidata_link(artist) == WikidataLink::Resource(r),
                None => spec_wikidata_link(artist) is MissingResource,
            },
            None => spec_wikidata_link(artist) is Absent,
        }),
{
    lemma_first_wikidata_at(artist.relations->0@, k);
}

/// An artist without relations, or with no relation typed `wikidata`, has no
/// wikidata page.
pub proof fn law_wikidata_link_absent(artist: MBArtist)
    requires
        artist.relations matches Some(rels) ==> forall|j: int|
            0 <= j < rels@.len() ==> !typed_wikidata(#[trigger] rels@[j]),
    ensures
        spec_wikidata_link(artist) is Absent,
{
    if artist.relations is Some {
        lemma_first_wikidata_none(artist.relations->0@);
    }
}

/// Whether a relation's type is `wikidata`.
fn rel_is_wikidata(rel: &MBUrlRel) -> (r: bool)
    ensures
        r == is_wikidata(*rel),
{
    match &rel.url_type {
        Some(t) => same_text(t.as_str(), "wikidata"),
        None => false,
    }
}

/// The wikidata page of an artist: the resource of its first relation of type
/// `wikidata`, looked at only when that relation has a url.
pub fn wikidata_link(artist: &MBArtist) -> (r: WikidataLink)
    ensures
        r == spec_wikidata_link(*artist),
{
    match &artist.relations {
        None => WikidataLink::Absent,
        Some(rels) => {
            let n = rels.len();
            let mut i: usize = 0;
            proof {
                assert(rels@.skip(0) =~= rels@);
            }
            while i < n
                invariant
                    artist.relations == Some(*rels),
                    n == rels@.len(),
                    i <= n,
                    first_wikidata(rels@) == first_wikidata(rels@.skip(i as int)),
                decreases n - i,
            {
                let rel = &rels[i];
                proof {
                    assert(rels@.skip(i as int)[0] == rels@[i as int]);
                    assert(rels@.skip(i as int).drop_first() =~= rels@.skip(i + 1));
                }
                if rel_is_wikidata(rel) {
                    proof {
                        assert(first_wikidata(rels@.skip(i as int)) == Some(rels@[i as int]));
                    }
                    return match &rel.url {
                        None => WikidataLink::Absent,
                        Some(u) => match &u.resource {
                            None => WikidataLink::MissingResource,
                            Some(res) => WikidataLink::Resource(res.clone()),
                        },
                    };
                }
                i = i + 1;
            }
            proof {
                assert(rels@.skip(n as int).len() == 0);
            }
            WikidataLink::Absent
        },
    }
}

} // verus!
