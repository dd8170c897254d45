//! fanart.tv image records and the address of an artist's images.
use vstd::prelude::*;

use crate::musicbrainz::opt_seq;
use crate::text::join_texts;

verus! {

/// Base address of the fanart.tv music images.
pub const FANART_TV_API_URL: &'static str = "http://webservice.fanart.tv/v3/music/";

/// The images fanart.tv holds for an artist, by kind.
#[derive(Debug)]
pub struct FATVArtistImages {
    pub artistthumb: Option<Vec<FATVImage>>,
    pub artistbackground: Option<Vec<FATVImage>>,
    pub musicbanner: Option<Vec<FATVImage>>,
    pub musiclogo: Option<Vec<FATVImage>>,
}

/// One image.
#[derive(Debug)]
pub struct FATVImage {
    pub id: String,
    pub url: String,
    pub likes: String,
}

impl FATVArtistImages {
    /// Equal kind by kind, vectors compared by their contents.
    pub open spec fn same_as(self, other: FATVArtistImages) -> bool {
        &&& opt_seq(self.artistthumb) == opt_seq(other.artistthumb)
        &&& opt_seq(self.artistbackground) == opt_seq(other.artistbackground)
        &&& opt_seq(self.musicbanner) == opt_seq(other.musicbanner)
        &&& opt_seq(self.musiclogo) == opt_seq(other.musiclogo)
    }
}

impl Clone for FATVImage {
    fn clone(&self) -> (r: Self)
        ensures
            r == *self,
    {
        FATVImage { id: self.id.clone(), url: self.url.clone(), likes: self.likes.clone() }
    }
}

/// A copy of an optional list of images.
fn copy_images(o: &Option<Vec<FATVImage>>) -> (r: Option<Vec<FATVImage>>)
    ensures
        opt_seq(r) == opt_seq(*o),
{
    match o {
        Some(v) => {
            let c = v.clone();
            proof {
                assert(c@ =~= v@);
            }
            Some(c)
        },
        None => None,
    }
}

impl Clone for FATVArtistImages {
    fn clone(&self) -> (r: Self)
        ensures
            r.same_as(*self),
    {
        FATVArtistImages {
            artistthumb: copy_images(&self.artistthumb),
            artistbackground: copy_images(&self.artistbackground),
            musicbanner: copy_images(&self.musicbanner),
            musiclogo: copy_images(&self.musiclogo),
        }
    }
}

/// Address of the images of the artist with the given MusicBrainz id.
pub fn artist_images_url(mb_artist_id: &str) -> (r: String)
    ensures
        r@ == FANART_TV_API_URL@ + mb_artist_id@,
{
    join_texts(FANART_TV_API_URL, mb_artist_id)
}

} // verus!
