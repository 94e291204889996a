use vstd::prelude::*;

use crate::json::{array_of, at, field, str_of, JsonValue};
use crate::request::{top_artists_method, Client, RequestBuilder};

verus! {

/// A user's top artists: the artists themselves, and the paging
/// attributes of the list.
#[derive(Debug)]
pub struct TopArtists {
    pub artists: Vec<Artist>,
    pub attrs: Attributes,
}

/// The paging attributes of a top list, as the service formats them.
#[derive(Debug)]
pub struct Attributes {
    pub page: String,
    pub total: String,
    pub user: String,
    pub per_page: String,
    pub total_pages: String,
}

/// One entry of a top artists list.
#[derive(Debug)]
pub struct Artist {
    pub attrs: ArtistAttributes,
    pub mbid: String,
    pub playcount: String,
    pub name: String,
    pub url: String,
    pub images: Vec<Image>,
}

/// The attributes of one entry: its rank in the list.
#[derive(Debug)]
pub struct ArtistAttributes {
    pub rank: String,
}

/// A picture of an artist, in one size.
#[derive(Debug)]
pub struct Image {
    pub image_size: String,
    pub image_url: String,
}

/// The string member `key` of `j`.
pub open spec fn text(j: JsonValue, key: Seq<char>) -> Option<Seq<char>> {
    str_of(field(j, key))
}

/// `j` is an object with the string members of an image.
pub open spec fn image_shape(j: JsonValue) -> bool {
    text(j, "size"@) is Some && text(j, "#text"@) is Some
}

/// `img` holds exactly the strings of `j`.
pub open spec fn image_from(j: JsonValue, img: Image) -> bool {
    text(j, "size"@) == Some(img.image_size@) && text(j, "#text"@) == Some(img.image_url@)
}

/// Every element of `xs` is an image.
pub open spec fn images_shape(xs: Seq<JsonValue>) -> bool {
    forall|k: int| 0 <= k < xs.len() ==> image_shape(#[trigger] xs[k])
}

/// `imgs` holds the images of `xs`, one for one and in order.
pub open spec fn images_from(xs: Seq<JsonValue>, imgs: Seq<Image>) -> bool {
    &&& xs.len() == imgs.len()
    &&& forall|k: int| 0 <= k < xs.len() ==> image_from(#[trigger] xs[k], imgs[k])
}

/// `j` is an object with the members of an artist entry.
pub open spec fn artist_shape(j: JsonValue) -> bool {
    &&& str_of(at(field(j, "@attr"@), "rank"@)) is Some
    &&& text(j, "mbid"@) is Some
    &&& text(j, "playcount"@) is Some
    &&& text(j, "name"@) is Some
    &&& text(j, "url"@) is Some
    &&& array_of(field(j, "image"@)) is Some
    &&& images_shape(array_of(field(j, "image"@))->Some_0)
}

/// `a` holds exactly what `j` holds.
pub open spec fn artist_from(j: JsonValue, a: Artist) -> bool {
    &&& str_of(at(field(j, "@attr"@), "rank"@)) == Some(a.attrs.rank@)
    &&& text(j, "mbid"@) == Some(a.mbid@)
    &&& text(j, "playcount"@) == Some(a.playcount@)
    &&& text(j, "name"@) == Some(a.name@)
    &&& text(j, "url"@) == Some(a.url@)
    &&& array_of(field(j, "image"@)) is Some
    &&& images_from(array_of(field(j, "image"@))->Some_0, a.images@)
}

/// Every element of `xs` is an artist entry.
pub open spec fn artists_shape(xs: Seq<JsonValue>) -> bool {
    forall|k: int| 0 <= k < xs.len() ==> artist_shape(#[trigger] xs[k])
}

/// `artists` holds the entries of `xs`, one for one and in order.
pub open spec fn artists_from(xs: Seq<JsonValue>, artists: Seq<Artist>) -> bool {
    &&& xs.len() == artists.len()
    &&& forall|k: int| 0 <= k < xs.len() ==> artist_from(#[trigger] xs[k], artists[k])
}

/// `j` is an object with the string members of the paging attributes.
pub open spec fn attributes_shape(j: JsonValue) -> bool {
    &&& text(j, "page"@) is Some
    &&& text(j, "total"@) is Some
    &&& text(j, "user"@) is Some
    &&& text(j, "perPage"@) is Some
    &&& text(j, "totalPages"@) is Some
}

/// `a` holds the strings of `j` untouched.
pub open spec fn attributes_from(j: JsonValue, a: Attributes) -> bool {
    &&& text(j, "page"@) == Some(a.page@)
    &&& text(j, "total"@) == Some(a.total@)
    &&& text(j, "user"@) == Some(a.user@)
    &&& text(j, "perPage"@) == Some(a.per_page@)
    &&& text(j, "totalPages"@) == Some(a.total_pages@)
}

/// `j` is the body of a top artists list: an `artist` array of entries and
/// an `@attr` object.
pub open spec fn top_artists_shape(j: JsonValue) -> bool {
    &&& array_of(field(j, "artist"@)) is Some
    &&& artists_shape(array_of(field(j, "artist"@))->Some_0)
    &&& field(j, "@attr"@) is Some
    &&& attributes_shape(field(j, "@attr"@)->Some_0)
}

/// `t` holds exactly what the list `j` holds.
pub open spec fn top_artists_from(j: JsonValue, t: TopArtists) -> bool {
    &&& array_of(field(j, "artist"@)) is Some
    &&& artists_from(array_of(field(j, "artist"@))->Some_0, t.artists@)
    &&& field(j, "@attr"@) is Some
    &&& attributes_from(field(j, "@attr"@)->Some_0, t.attrs)
}

fn decode_image(j: &JsonValue) -> (r: Option<Image>)
    ensures
        r is Some <==> image_shape(*j),
        r is Some ==> image_from(*j, r->Some_0),
{
    let size = j.get_str("size");
    let url = j.get_str("#text");
    match (size, url) {
        (Some(image_size), Some(image_url)) => Some(Image { image_size, image_url }),
        _ => None,
    }
}

fn decode_images(xs: &Vec<JsonValue>) -> (r: Option<Vec<Image>>)
    ensures
        r is Some <==> images_shape(xs@),
        r is Some ==> images_from(xs@, r->Some_0@),
{
    let mut out: Vec<Image> = Vec::new();
    let mut i: usize = 0;
    while i < xs.len()
        invariant
            i <= xs@.len(),
            out@.len() == i,
            forall|k: int| 0 <= k < i ==> image_shape(#[trigger] xs@[k]),
            forall|k: int| 0 <= k < i ==> image_from(#[trigger] xs@[k], out@[k]),
        decreases xs@.len() - i,
    {
        match decode_image(&xs[i]) {
            Some(img) => out.push(img),
            None => return None,
        }
        i = i + 1;
    }
    Some(out)
}

fn decode_artist(j: &JsonValue) -> (r: Option<Artist>)
    ensures
        r is Some <==> artist_shape(*j),
        r is Some ==> artist_from(*j, r->Some_0),
{
    let rank = match j.get("@attr") {
        Some(a) => a.get_str("rank"),
        None => None,
    };
    let mbid = j.get_str("mbid");
    let playcount = j.get_str("playcount");
    let name = j.get_str("name");
    let url = j.get_str("url");
    let images = match j.get("image") {
        Some(JsonValue::Array(xs)) => decode_images(xs),
        _ => None,
    };
    match (rank, mbid, playcount, name, url, images) {
        (Some(rank), Some(mbid), Some(playcount), Some(name), Some(url), Some(images)) => {
            Some(Artist { attrs: ArtistAttributes { rank }, mbid, playcount, name, url, images })
        },
        _ => None,
    }
}

fn decode_artists(xs: &Vec<JsonValue>) -> (r: Option<Vec<Artist>>)
    ensures
        r is Some <==> artists_shape(xs@),
        r is Some ==> artists_from(xs@, r->Some_0@),
{
    let mut out: Vec<Artist> = Vec::new();
    let mut i: usize = 0;
    while i < xs.len()
        invariant
            i <= xs@.len(),
            out@.len() == i,
            forall|k: int| 0 <= k < i ==> artist_shape(#[trigger] xs@[k]),
            forall|k: int| 0 <= k < i ==> artist_from(#[trigger] xs@[k], out@[k]),
        decreases xs@.len() - i,
    {
        match decode_artist(&xs[i]) {
            Some(a) => out.push(a),
            None => return None,
        }
        i = i + 1;
    }
    Some(out)
}

fn decode_attributes(j: &JsonValue) -> (r: Option<Attributes>)
    ensures
        r is Some <==> attributes_shape(*j),
        r is Some ==> attributes_from(*j, r->Some_0),
{
    let page = j.get_str("page");
    let total = j.get_str("total");
    let user = j.get_str("user");
    let per_page = j.get_str("perPage");
    let total_pages = j.get_str("totalPages");
    match (page, total, user, per_page, total_pages) {
        (Some(page), Some(total), Some(user), Some(per_page), Some(total_pages)) => {
            Some(Attributes { page, total, user, per_page, total_pages })
        },
        _ => None,
    }
}

impl TopArtists {
    /// A pending request for the top artists of `user`, made through `client`.
    pub fn build<'a>(client: &'a Client, user: &str) -> (r: RequestBuilder<'a>)
        ensures
            r.wf(),
            r.client == client,
            r.method@ == top_artists_method(),
            r.user@ == user@,
            r.params() == Seq::<(Seq<char>, Seq<char>)>::empty(),
    {
        let r = RequestBuilder {
            client,
            method: String::from_str("user.getTopArtists"),
            user: String::from_str(user),
            params: Vec::new(),
        };
        assert(r.params() =~= Seq::<(Seq<char>, Seq<char>)>::empty());
        r
    }

    /// Decodes the body of a top artists list.
    pub fn decode(j: &JsonValue) -> (r: Option<TopArtists>)
        ensures
            r is Some <==> top_artists_shape(*j),
            r is Some ==> top_artists_from(*j, r->Some_0),
    {
        let artists = match j.get("artist") {
            Some(JsonValue::Array(xs)) => decode_artists(xs),
            _ => None,
        };
        let attrs = match j.get("@attr") {
            Some(a) => decode_attributes(a),
            None => None,
        };
        match (artists, attrs) {
            (Some(artists), Some(attrs)) => Some(TopArtists { artists, attrs }),
            _ => None,
        }
    }
}

} // verus!
