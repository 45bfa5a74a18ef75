//! The client of the translation service: which request renders a text in
//! Shakespearean English, and what the upstream's answer amounts to.

use crate::config::{resolve, value_or, DEFAULT_SHAKESPEARE_TRANSLATOR_URI};
use crate::error::{result_view, Error, ErrorView};
use crate::http::{is_success, Request, RequestView};
use vstd::prelude::*;

verus! {

/// The inner object of a translation envelope.
#[derive(Debug)]
pub struct TranslationContents {
    pub translated: String,
}

/// A translation envelope, `{"contents": {"translated": ...}}`, decoded.
#[derive(Debug)]
pub struct Translation {
    pub contents: TranslationContents,
}

/// How the exchange with the translation service ended.
#[derive(Debug)]
pub enum TranslationReply {
    /// No HTTP response was received.
    Unreachable,
    /// A response was received.
    Answered {
        /// Its status code.
        status: u16,
        /// Its body as text; `None` when the body could not be read.
        body: Option<String>,
        /// Its body as a translation envelope; `None` when the body is not
        /// one.
        translation: Option<Translation>,
    },
}

impl TranslationReply {
    /// What the reply amounts to: the translated text, or the failure.
    ///
    /// A status of 429 is a rate limit and carries the body along (the empty
    /// text when the body could not be read). A status from 200 to 299 with
    /// an envelope is the translation. Everything else is a plain failure.
    pub open spec fn outcome(self) -> Result<Seq<char>, ErrorView> {
        match self {
            TranslationReply::Unreachable => Err(ErrorView::TranslationApi),
            TranslationReply::Answered { status, body, translation } => {
                if status == 429 {
                    Err(
                        ErrorView::TranslationApiRateLimit(
                            match body {
                                Some(text) => text@,
                                None => Seq::empty(),
                            },
                        ),
                    )
                } else if is_success(status) {
                    match translation {
                        Some(envelope) => Ok(envelope.contents.translated@),
                        None => Err(ErrorView::TranslationApi),
                    }
                } else {
                    Err(ErrorView::TranslationApi)
                }
            },
        }
    }
}

/// The client of the translation service. It owns the service's URL.
#[derive(Debug)]
pub struct Translator {
    url: String,
}

impl View for Translator {
    type V = Seq<char>;

    /// The URL that requests go to.
    closed spec fn view(&self) -> Seq<char> {
        self.url@
    }
}

impl Translator {
    /// The client for the configured URL, or for the public service when
    /// none is configured.
    pub fn get(configured: Option<String>) -> (translator: Translator)
        ensures
            translator@ == value_or(configured, DEFAULT_SHAKESPEARE_TRANSLATOR_URI@),
    {
        Translator { url: resolve(configured, DEFAULT_SHAKESPEARE_TRANSLATOR_URI) }
    }

    /// The client for the service at `url`.
    pub fn new(url: &str) -> (translator: Translator)
        ensures
            translator@ == url@,
    {
        Translator { url: url.to_owned() }
    }

    /// The one request that asks for the translation of `plain`. The text is
    /// handed on unchanged.
    pub fn request(&self, plain: &str) -> (request: Request)
        ensures
            request@ == (RequestView::Translation { url: self@, text: plain@ }),
    {
        Request::Translation { url: self.url.clone(), text: plain.to_owned() }
    }

    /// The translation that the upstream's reply holds, or the failure that
    /// the reply amounts to.
    pub fn get_shakespearean_translation(reply: TranslationReply) -> (result: Result<String, Error>)
        ensures
            result_view(result) == reply.outcome(),
            result matches Err(error) ==> !error@.from_species(),
    {
        match reply {
            TranslationReply::Unreachable => Err(Error::TranslationApi),
            TranslationReply::Answered { status, body, translation } => {
                if status == 429 {
                    match body {
                        Some(text) => Err(Error::TranslationApiRateLimit(text)),
                        None => Err(Error::TranslationApiRateLimit(String::new())),
                    }
                } else if 200 <= status && status <= 299 {
                    match translation {
                        Some(envelope) => Ok(envelope.contents.translated),
                        None => Err(Error::TranslationApi),
                    }
                } else {
                    Err(Error::TranslationApi)
                }
            },
        }
    }
}

} // verus!
