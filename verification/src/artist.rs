//! Artist information: the cached record, and the lookup that decides, step by
//! step, which service to ask next (cache, MusicBrainz, Wikipedia, fanart.tv).
use vstd::prelude::*;

use crate::fanarttv::FATVArtistImages;
use crate::musicbrainz::{
    law_wikidata_link_absent, law_wikidata_link_first_typed, spec_wikidata_link, typed_wikidata,
    wikidata_link, MBArtist, WikidataLink,
};

verus! {

/// What the player shows of an artist.
#[derive(Debug)]
pub struct ArtistInfo {
    pub artist: Option<MBArtist>,
    pub images: Option<FATVArtistImages>,
    pub bio: Option<String>,
}

impl ArtistInfo {
    /// Equal field by field, vectors compared by their contents.
    pub open spec fn same_as(self, other: ArtistInfo) -> bool {
        &&& match (self.artist, other.artist) {
            (Some(a), Some(b)) => a.same_as(b),
            (None, None) => true,
            _ => false,
        }
        &&& match (self.images, other.images) {
            (Some(a), Some(b)) => a.same_as(b),
            (None, None) => true,
            _ => false,
        }
        &&& self.bio == other.bio
    }
}

impl Clone for ArtistInfo {
    fn clone(&self) -> (r: Self)
        ensures
            r.same_as(*self),
    {
        let artist = match &self.artist {
            Some(a) => Some(a.clone()),
            None => None,
        };
        let images = match &self.images {
            Some(i) => Some(i.clone()),
            None => None,
        };
        let bio = match &self.bio {
            Some(b) => Some(b.clone()),
            None => None,
        };
        ArtistInfo { artist, images, bio }
    }
}

/// Where an artist lookup stands.
#[derive(Debug)]
pub enum ArtistLookup {
    /// Waiting for the cached record of `name`.
    CheckingCache { name: String },
    /// Waiting for MusicBrainz to find `name`.
    FindingArtist { name: String },
    /// Waiting for the Wikipedia biography of the artist found.
    FetchingBio { name: String, artist: MBArtist },
    /// Waiting for the fanart.tv images of the artist found.
    FetchingImages { name: String, artist: MBArtist, bio: Option<String> },
    /// Waiting for the new record to be written to the cache.
    StoringCache { info: ArtistInfo },
    /// The lookup has answered.
    Finished,
}

/// What the caller of a lookup is asked to do next.
#[derive(Debug)]
pub enum LookupAction {
    /// Read the cached record of `name`.
    ReadCache { name: String },
    /// Ask MusicBrainz for the artist `name` (search, then details).
    FindArtist { name: String },
    /// Fetch the Wikipedia extract for the wikidata page `wikidata_url`.
    FetchBio { wikidata_url: String },
    /// Fetch the fanart.tv images of the MusicBrainz artist `mb_artist_id`.
    FetchImages { mb_artist_id: String },
    /// Store `info` in the cache under `name`.
    WriteCache { name: String, info: ArtistInfo },
    /// The artist's wikidata relation has a url without a resource: give up
    /// the lookup without an answer.
    Abort,
    /// Answer the lookup with `answer`.
    Reply { answer: Option<ArtistInfo> },
}

/// What the caller reports after doing an action.
#[derive(Debug)]
pub enum LookupEvent {
    /// The cached record, if the cache held a readable one.
    CacheRead(Option<ArtistInfo>),
    /// The artist MusicBrainz found, if the search found one and both requests succeeded.
    ArtistFound(Option<MBArtist>),
    /// The Wikipedia extract, if one could be fetched.
    BioFetched(Option<String>),
    /// The fanart.tv images, if they could be fetched.
    ImagesFetched(Option<FATVArtistImages>),
    /// The cache write is done (whether it succeeded or not).
    CacheWritten,
}

impl LookupAction {
    /// Equal, except that records are compared with `ArtistInfo::same_as`.
    pub open spec fn same_as(self, other: LookupAction) -> bool {
        match (self, other) {
            (
                LookupAction::WriteCache { name: n1, info: i1 },
                LookupAction::WriteCache { name: n2, info: i2 },
            ) => n1 == n2 && i1.same_as(i2),
            _ => self == other,
        }
    }
}

/// The first state and action of a lookup of the artist `name`.
pub open spec fn spec_start(name: String) -> (ArtistLookup, LookupAction) {
    (ArtistLookup::CheckingCache { name }, LookupAction::ReadCache { name })
}

/// The state and action that follow `s` when `e` is reported.
pub open spec fn spec_next(s: ArtistLookup, e: LookupEvent) -> (ArtistLookup, LookupAction) {
    match (s, e) {
        (ArtistLookup::CheckingCache { name }, LookupEvent::CacheRead(Some(info))) => (
            ArtistLookup::Finished,
            LookupAction::Reply { answer: Some(info) },
        ),
        (ArtistLookup::CheckingCache { name }, LookupEvent::CacheRead(None)) => (
            ArtistLookup::FindingArtist { name },
            LookupAction::FindArtist { name },
        ),
        (ArtistLookup::FindingArtist { name }, LookupEvent::ArtistFound(None)) => (
            ArtistLookup::Finished,
            LookupAction::Reply { answer: None },
        ),
        (ArtistLookup::FindingArtist { name }, LookupEvent::ArtistFound(Some(artist))) => {
            match spec_wikidata_link(artist) {
                WikidataLink::Resource(url) => (
                    ArtistLookup::FetchingBio { name, artist },
                    LookupAction::FetchBio { wikidata_url: url },
                ),
                WikidataLink::Absent => (
                    ArtistLookup::FetchingImages { name, artist, bio: None },
                    LookupAction::FetchImages { mb_artist_id: artist.id },
                ),
                WikidataLink::MissingResource => (ArtistLookup::Finished, LookupAction::Abort),
            }
        },
        (ArtistLookup::FetchingBio { name, artist }, LookupEvent::BioFetched(bio)) => (
            ArtistLookup::FetchingImages { name, artist, bio },
            LookupAction::FetchImages { mb_artist_id: artist.id },
        ),
        (ArtistLookup::FetchingImages { name, artist, bio }, LookupEvent::ImagesFetched(images)) => {
            let info = ArtistInfo { artist: Some(artist), images, bio };
            (ArtistLookup::StoringCache { info }, LookupAction::WriteCache { name, info })
        },
        (ArtistLookup::StoringCache { info }, LookupEvent::CacheWritten) => (
            ArtistLookup::Finished,
            LookupAction::Reply { answer: Some(info) },
        ),
        _ => (ArtistLookup::Finished, LookupAction::Reply { answer: None }),
    }
}

impl ArtistLookup {
    /// Begins the lookup of the artist `name`: the cache is asked first.
    pub fn start(name: String) -> (r: (ArtistLookup, LookupAction))
        ensures
            r == spec_start(name),
    {
        let n = name.clone();
        (ArtistLookup::CheckingCache { name }, LookupAction::ReadCache { name: n })
    }

    /// The next state and action once `event` is reported. A cached record is
    /// answered at once; otherwise MusicBrainz is asked, then (for an artist
    /// found) Wikipedia when the artist has a wikidata page, then fanart.tv,
    /// and the record built is stored in the cache and answered. An event that
    /// the state does not wait for ends the lookup without an answer.
    pub fn step(self, event: LookupEvent) -> (r: (ArtistLookup, LookupAction))
        ensures
            r.0 == spec_next(self, event).0,
            r.1.same_as(spec_next(self, event).1),
    {
        match (self, event) {
            (ArtistLookup::CheckingCache { name }, LookupEvent::CacheRead(Some(info))) => (
                ArtistLookup::Finished,
                LookupAction::Reply { answer: Some(info) },
            ),
            (ArtistLookup::CheckingCache { name }, LookupEvent::CacheRead(None)) => {
                let n = name.clone();
                (ArtistLookup::FindingArtist { name }, LookupAction::FindArtist { name: n })
            },
            (ArtistLookup::FindingArtist { name }, LookupEvent::ArtistFound(None)) => (
                ArtistLookup::Finished,
                LookupAction::Reply { answer: None },
            ),
            (ArtistLookup::FindingArtist { name }, LookupEvent::ArtistFound(Some(artist))) => {
                match wikidata_link(&artist) {
                    WikidataLink::Resource(url) => (
                        ArtistLookup::FetchingBio { name, artist },
                        LookupAction::FetchBio { wikidata_url: url },
                    ),
                    WikidataLink::Absent => {
                        let id = artist.id.clone();
                        (
                            ArtistLookup::FetchingImages { name, artist, bio: None },
                            LookupAction::FetchImages { mb_artist_id: id },
                        )
                    },
                    WikidataLink::MissingResource => (ArtistLookup::Finished, LookupAction::Abort),
                }
            },
            (ArtistLookup::FetchingBio { name, artist }, LookupEvent::BioFetched(bio)) => {
                let id = artist.id.clone();
                (
                    ArtistLookup::FetchingImages { name, artist, bio },
                    LookupAction::FetchImages { mb_artist_id: id },
                )
            },
            (
                ArtistLookup::FetchingImages { name, artist, bio },
                LookupEvent::ImagesFetched(images),
            ) => {
                let info = ArtistInfo { artist: Some(artist), images, bio };
                let copy = info.clone();
                (ArtistLookup::StoringCache { info }, LookupAction::WriteCache { name, info: copy })
            },
            (ArtistLookup::StoringCache { info }, LookupEvent::CacheWritten) => (
                ArtistLookup::Finished,
                LookupAction::Reply { answer: Some(info) },
            ),
            _ => (ArtistLookup::Finished, LookupAction::Reply { answer: None }),
        }
    }
}

/// The actions a lookup in state `s` asks for as `events` are reported one by one.
pub open spec fn spec_run(s: ArtistLookup, events: Seq<LookupEvent>) -> Seq<LookupAction>
    decreases events.len(),
{
    if events.len() == 0 {
        Seq::empty()
    } else {
        let (s2, a) = spec_next(s, events[0]);
        seq![a] + spec_run(s2, events.drop_first())
    }
}

/// The state a lookup in state `s` reaches once `events` are reported.
pub open spec fn spec_after(s: ArtistLookup, events: Seq<LookupEvent>) -> ArtistLookup
    decreases events.len(),
{
    if events.len() == 0 {
        s
    } else {
        spec_after(spec_next(s, events[0]).0, events.drop_first())
    }
}

/// Whether an action that names an artist names `name`.
pub open spec fn names_only(a: LookupAction, name: String) -> bool {
    match a {
        LookupAction::ReadCache { name: n } => n == name,
        LookupAction::FindArtist { name: n } => n == name,
        LookupAction::WriteCache { name: n, info: _ } => n == name,
        _ => true,
    }
}

/// Whether a state that holds an artist name holds `name`.
pub open spec fn state_names_only(s: ArtistLookup, name: String) -> bool {
    match s {
        ArtistLookup::CheckingCache { name: n } => n == name,
        ArtistLookup::FindingArtist { name: n } => n == name,
        ArtistLookup::FetchingBio { name: n, artist: _ } => n == name,
        ArtistLookup::FetchingImages { name: n, artist: _, bio: _ } => n == name,
        _ => true,
    }
}

/// How many more reports a lookup in state `s` waits for, at most.
pub open spec fn reports_left(s: ArtistLookup) -> nat {
    match s {
        ArtistLookup::CheckingCache { .. } => 5,
        ArtistLookup::FindingArtist { .. } => 4,
        ArtistLookup::FetchingBio { .. } => 3,
        ArtistLookup::FetchingImages { .. } => 2,
        ArtistLookup::StoringCache { .. } => 1,
        ArtistLookup::Finished => 0,
    }
}

proof fn lemma_step_keeps_name(s: ArtistLookup, e: LookupEvent, name: String)
    requires
        state_names_only(s, name),
    ensures
        state_names_only(spec_next(s, e).0, name),
        names_only(spec_next(s, e).1, name),
{
}

proof fn lemma_run_keeps_name(s: ArtistLookup, events: Seq<LookupEvent>, name: String)
    requires
        state_names_only(s, name),
    ensures
        forall|i: int| 0 <= i < spec_run(s, events).len() ==> names_only(#[trigger] spec_run(s, events)[i], name),
        spec_run(s, events).len() == events.len(),
    decreases events.len(),
{
    if events.len() > 0 {
        let (s2, a) = spec_next(s, events[0]);
        lemma_step_keeps_name(s, events[0], name);
        lemma_run_keeps_name(s2, events.drop_first(), name);
        let rest = spec_run(s2, events.drop_first());
        assert forall|i: int| 0 <= i < spec_run(s, events).len() implies names_only(
            #[trigger] spec_run(s, events)[i],
            name,
        ) by {
            if i > 0 {
                assert(spec_run(s, events)[i] == rest[i - 1]);
            }
        }
    }
}

/// A lookup of `name` only ever reads, searches and writes the cache under
/// `name`, whatever the services report.
pub proof fn law_lookup_keyed_by_name(name: String, events: Seq<LookupEvent>)
    ensures
        names_only(spec_start(name).1, name),
        forall|i: int| 0 <= i < spec_run(spec_start(name).0, events).len()
            ==> names_only(#[trigger] spec_run(spec_start(name).0, events)[i], name),
{
    lemma_run_keeps_name(spec_start(name).0, events, name);
}

/// A record found in the cache is answered unchanged, and nothing else is asked.
pub proof fn law_cache_hit_answered(name: String, info: ArtistInfo)
    ensures
        spec_next(ArtistLookup::CheckingCache { name }, LookupEvent::CacheRead(Some(info))) == (
            ArtistLookup::Finished,
            LookupAction::Reply { answer: Some(info) },
        ),
{
}

/// An artist MusicBrainz does not find is answered with nothing, and nothing
/// is written to the cache.
pub proof fn law_unknown_artist_answers_none(name: String)
    ensures
        spec_next(ArtistLookup::FindingArtist { name }, LookupEvent::ArtistFound(None)) == (
            ArtistLookup::Finished,
            LookupAction::Reply { answer: None },
        ),
{
}

/// The record written to the cache is the record answered once the write is done.
pub proof fn law_stored_record_answered(s: ArtistLookup, e: LookupEvent)
    ensures
        spec_next(s, e).1 matches LookupAction::WriteCache { name, info } ==> spec_next(
            spec_next(s, e).0,
            LookupEvent::CacheWritten,
        ) == (ArtistLookup::Finished, LookupAction::Reply { answer: Some(info) }),
{
}

/// The record written to the cache holds the artist found, the biography
/// fetched and the images fetched.
pub proof fn law_record_holds_fetched_parts(
    name: String,
    artist: MBArtist,
    bio: Option<String>,
    images: Option<FATVArtistImages>,
)
    ensures
        spec_next(
            ArtistLookup::FetchingImages { name, artist, bio },
            LookupEvent::ImagesFetched(images),
        ).1 == (LookupAction::WriteCache {
            name,
            info: ArtistInfo { artist: Some(artist), images, bio },
        }),
{
}

/// Whatever the biography fetch gives, a found biography or none, the lookup
/// goes on: it keeps the artist and the biography and asks for the images of
/// the artist found.
pub proof fn law_bio_then_images(name: String, artist: MBArtist, bio: Option<String>)
    ensures
        spec_next(ArtistLookup::FetchingBio { name, artist }, LookupEvent::BioFetched(bio)) == (
            ArtistLookup::FetchingImages { name, artist, bio },
            LookupAction::FetchImages { mb_artist_id: artist.id },
        ),
{
}

/// Without a cached record, MusicBrainz is asked for the same name.
pub proof fn law_cache_miss_asks_musicbrainz(name: String)
    ensures
        spec_next(ArtistLookup::CheckingCache { name }, LookupEvent::CacheRead(None)) == (
            ArtistLookup::FindingArtist { name },
            LookupAction::FindArtist { name },
        ),
{
}

/// For an artist found, the biography is fetched from the resource of its
/// first relation typed `wikidata`, wherever it stands; without such a
/// relation, the images are asked for at once with no biography; a first
/// `wikidata` relation whose url has no resource aborts the lookup.
pub proof fn law_found_artist_next(name: String, artist: MBArtist, k: int)
    ensures
        (artist.relations matches Some(rels) ==> forall|j: int|
            0 <= j < rels@.len() ==> !typed_wikidata(#[trigger] rels@[j])) ==> spec_next(
            ArtistLookup::FindingArtist { name },
            LookupEvent::ArtistFound(Some(artist)),
        ) == (
            ArtistLookup::FetchingImages { name, artist, bio: None },
            LookupAction::FetchImages { mb_artist_id: artist.id },
        ),
        ({
            &&& artist.relations is Some
            &&& 0 <= k < artist.relations->0@.len()
            &&& typed_wikidata(artist.relations->0@[k])
            &&& forall|j: int| 0 <= j < k ==> !typed_wikidata(#[trigger] artist.relations->0@[j])
        }) ==> (match artist.relations->0@[k].url {
            Some(u) => match u.resource {
                Some(r) => spec_next(
                    ArtistLookup::FindingArtist { name },
                    LookupEvent::ArtistFound(Some(artist)),
                ) == (
                    ArtistLookup::FetchingBio { name, artist },
                    LookupAction::FetchBio { wikidata_url: r },
                ),
                None => spec_next(
                    ArtistLookup::FindingArtist { name },
                    LookupEvent::ArtistFound(Some(artist)),
                ) == (ArtistLookup::Finished, LookupAction::Abort),
            },
            None => spec_next(
                ArtistLookup::FindingArtist { name },
                LookupEvent::ArtistFound(Some(artist)),
            ) == (
                ArtistLookup::FetchingImages { name, artist, bio: None },
                LookupAction::FetchImages { mb_artist_id: artist.id },
            ),
        }),
{
    if artist.relations matches Some(rels) ==> forall|j: int|
        0 <= j < rels@.len() ==> !typed_wikidata(#[trigger] rels@[j]) {
        law_wikidata_link_absent(artist);
    }
    if artist.relations is Some && 0 <= k < artist.relations->0@.len() && typed_wikidata(
        artist.relations->0@[k],
    ) && forall|j: int| 0 <= j < k ==> !typed_wikidata(#[trigger] artist.relations->0@[j]) {
        law_wikidata_link_first_typed(artist, k);
    }
}

/// A whole lookup of an uncached artist with a wikidata page: MusicBrainz is
/// asked, then the biography, then the images, whatever the biography fetch
/// gave; the record of the artist, images and biography is stored under the
/// name and answered.
pub proof fn law_full_lookup_with_wikidata(
    name: String,
    artist: MBArtist,
    r: String,
    bio: Option<String>,
    images: Option<FATVArtistImages>,
)
    requires
        spec_wikidata_link(artist) == WikidataLink::Resource(r),
    ensures
        ({
            let info = ArtistInfo { artist: Some(artist), images, bio };
            spec_run(
                spec_start(name).0,
                seq![
                    LookupEvent::CacheRead(None),
                    LookupEvent::ArtistFound(Some(artist)),
                    LookupEvent::BioFetched(bio),
                    LookupEvent::ImagesFetched(images),
                    LookupEvent::CacheWritten,
                ],
            ) == seq![
                LookupAction::FindArtist { name },
                LookupAction::FetchBio { wikidata_url: r },
                LookupAction::FetchImages { mb_artist_id: artist.id },
                LookupAction::WriteCache { name, info },
                LookupAction::Reply { answer: Some(info) },
            ]
        }),
{
    let info = ArtistInfo { artist: Some(artist), images, bio };
    let e = seq![
        LookupEvent::CacheRead(None),
        LookupEvent::ArtistFound(Some(artist)),
        LookupEvent::BioFetched(bio),
        LookupEvent::ImagesFetched(images),
        LookupEvent::CacheWritten,
    ];
    let s1 = ArtistLookup::FindingArtist { name };
    let s2 = ArtistLookup::FetchingBio { name, artist };
    let s3 = ArtistLookup::FetchingImages { name, artist, bio };
    let s4 = ArtistLookup::StoringCache { info };
    assert(spec_run(ArtistLookup::Finished, e.skip(5)) == Seq::<LookupAction>::empty());
    assert(e.skip(4).drop_first() =~= e.skip(5));
    assert(e.skip(3).drop_first() =~= e.skip(4));
    assert(e.skip(2).drop_first() =~= e.skip(3));
    assert(e.skip(1).drop_first() =~= e.skip(2));
    assert(e.drop_first() =~= e.skip(1));
    assert(spec_run(s4, e.skip(4)) =~= seq![LookupAction::Reply { answer: Some(info) }]);
    assert(spec_run(s3, e.skip(3)) =~= seq![
        LookupAction::WriteCache { name, info },
        LookupAction::Reply { answer: Some(info) },
    ]);
    assert(spec_run(s2, e.skip(2)) =~= seq![
        LookupAction::FetchImages { mb_artist_id: artist.id },
        LookupAction::WriteCache { name, info },
        LookupAction::Reply { answer: Some(info) },
    ]);
    assert(spec_run(s1, e.skip(1)) =~= seq![
        LookupAction::FetchBio { wikidata_url: r },
        LookupAction::FetchImages { mb_artist_id: artist.id },
        LookupAction::WriteCache { name, info },
        LookupAction::Reply { answer: Some(info) },
    ]);
    assert(spec_run(spec_start(name).0, e) =~= seq![
        LookupAction::FindArtist { name },
        LookupAction::FetchBio { wikidata_url: r },
        LookupAction::FetchImages { mb_artist_id: artist.id },
        LookupAction::WriteCache { name, info },
        LookupAction::Reply { answer: Some(info) },
    ]);
}

/// Once finished, a lookup stays finished.
pub proof fn law_finished_is_final(e: LookupEvent)
    ensures
        spec_next(ArtistLookup::Finished, e).0 == ArtistLookup::Finished,
{
}

proof fn lemma_reports_left(s: ArtistLookup, events: Seq<LookupEvent>)
    ensures
        events.len() >= reports_left(s) ==> spec_after(s, events) == ArtistLookup::Finished,
    decreases events.len(),
{
    if events.len() > 0 {
        let s2 = spec_next(s, events[0]).0;
        assert(s2 == ArtistLookup::Finished || reports_left(s2) < reports_left(s));
        lemma_reports_left(s2, events.drop_first());
    }
}

/// Every lookup has finished after at most five reports.
pub proof fn law_lookup_ends(name: String, events: Seq<LookupEvent>)
    requires
        events.len() >= 5,
    ensures
        spec_after(spec_start(name).0, events) == ArtistLookup::Finished,
{
    lemma_reports_left(spec_start(name).0, events);
}

} // verus!
