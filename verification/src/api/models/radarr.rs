use vstd::prelude::*;

use super::arr::Image;
use crate::text::{chars_eq, chars_of};

verus! {

#[derive(Debug, Clone)]
pub struct Movie {
    /// 0 for lookup results not yet in the library.
    pub id: i64,
    pub title: String,
    pub year: Option<i32>,
    pub tmdb_id: i64,
    pub imdb_id: Option<String>,
    pub overview: Option<String>,
    pub status: Option<String>,
    pub monitored: Option<bool>,
    pub has_file: Option<bool>,
    pub is_available: Option<bool>,
    pub runtime: Option<i64>,
    pub quality_profile_id: Option<i64>,
    pub size_on_disk: Option<i64>,
    pub path: Option<String>,
    pub genres: Vec<String>,
    pub images: Vec<Image>,
    pub in_cinemas: Option<String>,
    pub physical_release: Option<String>,
    pub digital_release: Option<String>,
}

pub open spec fn is_poster(img: Image) -> bool {
    img.cover_type@ == "poster"@
}

/// An image's address: the remote URL when present, else the proxied one.
pub open spec fn image_address(img: Image) -> Option<Seq<char>> {
    match img.remote_url {
        Some(r) => Some(r@),
        None => match img.url {
            Some(u) => Some(u@),
            None => None,
        },
    }
}

/// Address of the first poster image, if there is a poster at all.
pub open spec fn poster_address(images: Seq<Image>) -> Option<Seq<char>>
    decreases images.len(),
{
    if images.len() == 0 {
        None
    } else if is_poster(images[0]) {
        image_address(images[0])
    } else {
        poster_address(images.drop_first())
    }
}

pub open spec fn opt_str_view(o: Option<&str>) -> Option<Seq<char>> {
    match o {
        Some(s) => Some(s@),
        None => None,
    }
}

fn is_poster_exec(img: &Image) -> (r: bool)
    ensures
        r == is_poster(*img),
{
    let a = chars_of(img.cover_type.as_str());
    let b = chars_of("poster");
    chars_eq(&a, &b)
}

/// The address of the first poster among `images`.
pub fn poster_url(images: &Vec<Image>) -> (r: Option<&str>)
    ensures
        opt_str_view(r) == poster_address(images@),
{
    let mut i: usize = 0;
    assert(images@.skip(0) =~= images@);
    while i < images.len()
        invariant
            0 <= i <= images@.len(),
            poster_address(images@) == poster_address(images@.skip(i as int)),
        decreases images@.len() - i,
    {
        let img = &images[i];
        assert(images@.skip(i as int)[0] == images@[i as int]);
        if is_poster_exec(img) {
            return match &img.remote_url {
                Some(r) => Some(r.as_str()),
                None => match &img.url {
                    Some(u) => Some(u.as_str()),
                    None => None,
                },
            };
        }
        assert(images@.skip(i as int).drop_first() =~= images@.skip(i + 1));
        i = i + 1;
    }
    None
}

impl Movie {
    pub fn poster_remote_url(&self) -> (r: Option<&str>)
        ensures
            opt_str_view(r) == poster_address(self.images@),
    {
        poster_url(&self.images)
    }
}

} // verus!
