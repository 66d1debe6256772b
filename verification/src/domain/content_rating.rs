//! Content ratings of personas, with their lower-case text form.
use vstd::prelude::*;
use crate::text::ascii_lower;
use vstd::utf8::is_ascii_chars;

verus! {

/// How explicit a persona's content is.
#[derive(Debug, Clone, Copy, PartialEq, Eq, Structural)]
pub enum ContentRating {
    Pg,
    Mature,
    Nsfw,
}

/// A rating text that names no rating; it holds the lower-cased text.
#[derive(Debug)]
pub struct ContentRatingParseError(pub String);

/// The text form of a rating: `pg`, `mature` or `nsfw`.
pub open spec fn rating_text(r: ContentRating) -> Seq<char> {
    match r {
        ContentRating::Pg => "pg"@,
        ContentRating::Mature => "mature"@,
        ContentRating::Nsfw => "nsfw"@,
    }
}

/// The rating whose text form is exactly `l`, if any.
pub open spec fn rating_from_lower(l: Seq<char>) -> Option<ContentRating> {
    if l == "pg"@ {
        Some(ContentRating::Pg)
    } else if l == "mature"@ {
        Some(ContentRating::Mature)
    } else if l == "nsfw"@ {
        Some(ContentRating::Nsfw)
    } else {
        None
    }
}

/// `s` with its ASCII letters lower-cased.
pub open spec fn ascii_lowered(s: Seq<char>) -> Seq<char> {
    s.map_values(|c: char| ascii_lower(c))
}

/// What `str::to_lowercase` returns for a string: its Unicode lower-case mapping.
pub uninterp spec fn lowercase(s: Seq<char>) -> Seq<char>;

/// `str::to_lowercase`. The result is named by `lowercase`; on a string of ASCII chars the
/// Unicode lower-case mapping maps `A`..`Z` to `a`..`z` and keeps every other char.
#[verifier::external_body]
fn to_lowercase(s: &str) -> (r: String)
    ensures
        r@ == lowercase(s@),
        is_ascii_chars(s@) ==> r@ == ascii_lowered(s@),
{
    s.to_lowercase()
}

impl ContentRatingParseError {
    /// The error text: `unknown content rating: ` and the rejected text.
    pub fn message(&self) -> (r: String)
        ensures
            r@ == "unknown content rating: "@ + self.0@,
    {
        crate::text::concat2("unknown content rating: ", self.0.as_str())
    }
}

impl ContentRating {
    /// The rating named by an already lower-cased text; any other text is returned in the error.
    pub fn from_lowercase(l: &str) -> (r: Result<ContentRating, ContentRatingParseError>)
        ensures
            match r {
                Ok(v) => rating_from_lower(l@) == Some(v),
                Err(e) => rating_from_lower(l@) is None && e.0@ == l@,
            },
    {
        if crate::text::str_eq(l, "pg") {
            Ok(ContentRating::Pg)
        } else if crate::text::str_eq(l, "mature") {
            Ok(ContentRating::Mature)
        } else if crate::text::str_eq(l, "nsfw") {
            Ok(ContentRating::Nsfw)
        } else {
            Err(ContentRatingParseError(l.to_owned()))
        }
    }

    /// Parses a rating case-insensitively: `s` is lower-cased, then must read `pg`,
    /// `mature` or `nsfw`; otherwise the error holds the lower-cased text.
    pub fn parse(s: &str) -> (r: Result<ContentRating, ContentRatingParseError>)
        ensures
            match r {
                Ok(v) => rating_from_lower(lowercase(s@)) == Some(v),
                Err(e) => rating_from_lower(lowercase(s@)) is None && e.0@ == lowercase(s@),
            },
            is_ascii_chars(s@) ==> match r {
                Ok(v) => rating_from_lower(ascii_lowered(s@)) == Some(v),
                Err(e) => rating_from_lower(ascii_lowered(s@)) is None && e.0@ == ascii_lowered(s@),
            },
    {
        let lower = to_lowercase(s);
        ContentRating::from_lowercase(lower.as_str())
    }

    /// The rating's text form, as its `Display` writes it.
    pub fn as_str(&self) -> (r: &'static str)
        ensures
            r@ == rating_text(*self),
    {
        match self {
            ContentRating::Pg => "pg",
            ContentRating::Mature => "mature",
            ContentRating::Nsfw => "nsfw",
        }
    }
}

impl std::str::FromStr for ContentRating {
    type Err = ContentRatingParseError;

    /// Parses a rating case-insensitively (see `ContentRating::parse`).
    fn from_str(s: &str) -> (r: Result<ContentRating, ContentRatingParseError>)
        ensures
            match r {
                Ok(v) => rating_from_lower(lowercase(s@)) == Some(v),
                Err(e) => rating_from_lower(lowercase(s@)) is None && e.0@ == lowercase(s@),
            },
            is_ascii_chars(s@) ==> match r {
                Ok(v) => rating_from_lower(ascii_lowered(s@)) == Some(v),
                Err(e) => rating_from_lower(ascii_lowered(s@)) is None && e.0@ == ascii_lowered(s@),
            },
    {
        ContentRating::parse(s)
    }
}

/// Reading back a rating's text form gives the rating: its text is ASCII and already
/// lower case, so `ContentRating::parse(r.as_str())` returns `Ok(r)`.
pub proof fn lemma_rating_text_roundtrip(r: ContentRating)
    ensures
        is_ascii_chars(rating_text(r)),
        ascii_lowered(rating_text(r)) == rating_text(r),
        rating_from_lower(rating_text(r)) == Some(r),
{
    reveal_strlit("pg");
    reveal_strlit("mature");
    reveal_strlit("nsfw");
    assert(ascii_lowered(rating_text(r)) =~= rating_text(r));
    if r != ContentRating::Pg {
        assert(rating_text(r) != "pg"@) by {
            assert(rating_text(r).len() != 2);
        }
    }
    if r == ContentRating::Nsfw {
        assert(rating_text(r) != "mature"@) by {
            assert(rating_text(r).len() != 6);
        }
    }
}

} // verus!
