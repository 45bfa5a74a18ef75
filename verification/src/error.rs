//! The closed set of failures, and the one place that knows which HTTP
//! response each of them becomes.

use crate::http::{is_served_status, Response, ResponseView};
use vstd::prelude::*;

verus! {

/// Body of the response to a failed translation.
pub const TRANSLATION_API_BODY: &'static str =
    "{\"error\":{\"code\":400,\"message\":\"Translation API Error.\"}}";

/// Body of the response to a failed species lookup.
pub const POKEMON_API_BODY: &'static str =
    "{\"error\":{\"code\":400,\"message\":\"Pokemon API Error.\"}}";

/// Body of the response for a name the species service does not know.
pub const POKEMON_NOT_FOUND_BODY: &'static str =
    "{\"error\":{\"code\":404,\"message\":\"Pokemon Not Found\"}}";

/// Body of the response for a species without an English flavor text.
pub const NO_POKEMON_DESCRIPTION_BODY: &'static str =
    "{\"error\":{\"code\":404,\"message\":\"Pokemon Description Not Found\"}}";

/// Why a request could not be answered with a Pokémon.
#[derive(Debug)]
pub enum Error {
    /// The translation service failed in any way but a rate limit.
    TranslationApi,
    /// The translation service answered 429; the payload is its body.
    TranslationApiRateLimit(String),
    /// The species service failed in any way but a 404.
    PokemonApi,
    /// The species service answered 404.
    PokemonNotFound,
    /// The species is known but has no English flavor text.
    NoPokemonDescription,
}

/// What an `Error` is, with its payload as a sequence of characters.
pub enum ErrorView {
    TranslationApi,
    TranslationApiRateLimit(Seq<char>),
    PokemonApi,
    PokemonNotFound,
    NoPokemonDescription,
}

impl View for Error {
    type V = ErrorView;

    open spec fn view(&self) -> ErrorView {
        match *self {
            Error::TranslationApi => ErrorView::TranslationApi,
            Error::TranslationApiRateLimit(body) => ErrorView::TranslationApiRateLimit(body@),
            Error::PokemonApi => ErrorView::PokemonApi,
            Error::PokemonNotFound => ErrorView::PokemonNotFound,
            Error::NoPokemonDescription => ErrorView::NoPokemonDescription,
        }
    }
}

impl ErrorView {
    /// The HTTP status that reports this failure.
    pub open spec fn status(self) -> u16 {
        match self {
            ErrorView::TranslationApi => 400,
            ErrorView::TranslationApiRateLimit(_) => 429,
            ErrorView::PokemonApi => 400,
            ErrorView::PokemonNotFound => 404,
            ErrorView::NoPokemonDescription => 404,
        }
    }

    /// The body that reports this failure: a fixed JSON envelope, or for a
    /// rate limit the upstream's own body, unchanged.
    pub open spec fn body(self) -> Seq<char> {
        match self {
            ErrorView::TranslationApi => TRANSLATION_API_BODY@,
            ErrorView::TranslationApiRateLimit(body) => body,
            ErrorView::PokemonApi => POKEMON_API_BODY@,
            ErrorView::PokemonNotFound => POKEMON_NOT_FOUND_BODY@,
            ErrorView::NoPokemonDescription => NO_POKEMON_DESCRIPTION_BODY@,
        }
    }

    /// The response that reports this failure.
    pub open spec fn response(self) -> ResponseView {
        ResponseView::json(self.status(), self.body())
    }

    /// Whether this failure is one of the species lookup, as opposed to one
    /// of the translation.
    pub open spec fn from_species(self) -> bool {
        self is PokemonApi || self is PokemonNotFound || self is NoPokemonDescription
    }
}

/// A client's result with its strings as sequences of characters.
pub open spec fn result_view(result: Result<String, Error>) -> Result<Seq<char>, ErrorView> {
    match result {
        Ok(text) => Ok(text@),
        Err(error) => Err(error@),
    }
}

impl Error {
    /// The HTTP status that reports this failure.
    pub fn status_code(&self) -> (status: u16)
        ensures
            status == self@.status(),
            status == 400 || status == 404 || status == 429,
    {
        match self {
            Error::TranslationApi => 400,
            Error::TranslationApiRateLimit(_) => 429,
            Error::PokemonApi => 400,
            Error::PokemonNotFound => 404,
            Error::NoPokemonDescription => 404,
        }
    }

    /// The body that reports this failure.
    pub fn body(&self) -> (body: String)
        ensures
            body@ == self@.body(),
    {
        match self {
            Error::TranslationApi => TRANSLATION_API_BODY.to_owned(),
            Error::TranslationApiRateLimit(body) => body.clone(),
            Error::PokemonApi => POKEMON_API_BODY.to_owned(),
            Error::PokemonNotFound => POKEMON_NOT_FOUND_BODY.to_owned(),
            Error::NoPokemonDescription => NO_POKEMON_DESCRIPTION_BODY.to_owned(),
        }
    }

    /// The response that reports this failure: its status, the JSON content
    /// type, and its body.
    pub fn error_response(&self) -> (response: Response)
        ensures
            response@ == self@.response(),
            is_served_status(response.status),
            response.status != 200,
    {
        Response::json(self.status_code(), self.body())
    }
}

impl Clone for Error {
    fn clone(&self) -> (copy: Error)
        ensures
            copy@ == self@,
    {
        match self {
            Error::TranslationApi => Error::TranslationApi,
            Error::TranslationApiRateLimit(body) => Error::TranslationApiRateLimit(body.clone()),
            Error::PokemonApi => Error::PokemonApi,
            Error::PokemonNotFound => Error::PokemonNotFound,
            Error::NoPokemonDescription => Error::NoPokemonDescription,
        }
    }
}

impl PartialEq for Error {
    fn eq(&self, other: &Error) -> (r: bool) {
        match (self, other) {
            (Error::TranslationApi, Error::TranslationApi) => true,
            (Error::TranslationApiRateLimit(a), Error::TranslationApiRateLimit(b)) => *a == *b,
            (Error::PokemonApi, Error::PokemonApi) => true,
            (Error::PokemonNotFound, Error::PokemonNotFound) => true,
            (Error::NoPokemonDescription, Error::NoPokemonDescription) => true,
            _ => false,
        }
    }
}

impl vstd::std_specs::cmp::PartialEqSpecImpl for Error {
    open spec fn obeys_eq_spec() -> bool {
        true
    }

    open spec fn eq_spec(&self, other: &Error) -> bool {
        self@ == other@
    }
}

} // verus!
