//! Character Card v2, the import format of personas.
use vstd::prelude::*;
use crate::domain::content_rating::{ContentRating, rating_from_lower, lowercase};

verus! {

/// The part of a card's `extensions` object that the library reads.
#[derive(Debug, Clone)]
pub struct CardExtensions {
    /// The value of the `content_rating` member, when the extensions are an object
    /// with a string there.
    pub content_rating: Option<String>,
}

/// A Character Card in the v2 format.
#[derive(Debug, Clone)]
pub struct CharacterCardV2 {
    pub spec: String,
    pub spec_version: String,
    pub data: CharacterCardV2Data,
}

/// The character data of a card.
#[derive(Debug, Clone)]
pub struct CharacterCardV2Data {
    pub name: String,
    pub description: String,
    pub personality: String,
    pub scenario: String,
    pub first_mes: String,
    pub mes_example: String,
    pub creator_notes: String,
    pub tags: Vec<String>,
    pub extensions: CardExtensions,
}

/// The rating that the text `s` names once lower-cased, or `Pg` when it names none.
pub open spec fn rating_or_pg(s: Seq<char>) -> ContentRating {
    match rating_from_lower(lowercase(s)) {
        Some(r) => r,
        None => ContentRating::Pg,
    }
}

impl CharacterCardV2Data {
    /// The rating the card's extensions give: the `content_rating` member read
    /// case-insensitively, or `Pg` when it is absent or names no rating.
    pub open spec fn spec_content_rating(&self) -> ContentRating {
        match self.extensions.content_rating {
            Some(s) => rating_or_pg(s@),
            None => ContentRating::Pg,
        }
    }

    /// Extracts the content rating from the extensions; defaults to `Pg`.
    pub fn content_rating(&self) -> (r: ContentRating)
        ensures
            r == self.spec_content_rating(),
    {
        match &self.extensions.content_rating {
            Some(s) => match ContentRating::parse(s.as_str()) {
                Ok(r) => r,
                Err(_) => ContentRating::Pg,
            },
            None => ContentRating::Pg,
        }
    }
}

} // verus!
