//! The response value, and the client of the species service: which request
//! looks a name up, and what the upstream's answer amounts to.

use crate::config::{resolve, value_or, DEFAULT_POKEAPI_URI};
use crate::error::{result_view, Error, ErrorView};
use crate::http::{is_success, Request, RequestView, Response, ResponseView};
use crate::text::{json_string, lowercase, lowercased, quote_json};
use vstd::prelude::*;
use vstd::string::StringExecFns;

verus! {

/// Path under the species service's base URL, up to the name.
pub const SPECIES_PATH: &'static str = "/pokemon-species/";

/// Language tag of the flavor text that gets translated.
pub const ENGLISH: &'static str = "en";

/// Start of the JSON object of a Pokémon, up to the name.
pub const JSON_NAME: &'static str = "{\"name\":";

/// Part of the JSON object of a Pokémon between name and description.
pub const JSON_DESCRIPTION: &'static str = ",\"description\":";

/// End of the JSON object of a Pokémon.
pub const JSON_END: &'static str = "}";

/// A Pokémon as the service reports it: its name in lowercase, and a
/// description.
#[derive(Debug)]
pub struct Pokemon {
    pub name: String,
    pub description: String,
}

/// What a `Pokemon` is, with its strings as sequences of characters.
pub struct PokemonView {
    pub name: Seq<char>,
    pub description: Seq<char>,
}

impl View for Pokemon {
    type V = PokemonView;

    open spec fn view(&self) -> PokemonView {
        PokemonView { name: self.name@, description: self.description@ }
    }
}

impl PokemonView {
    /// The JSON object that reports this Pokémon: the members `name` and
    /// `description`, in this order, without white space.
    pub open spec fn json(self) -> Seq<char> {
        JSON_NAME@ + json_string(self.name) + JSON_DESCRIPTION@ + json_string(self.description)
            + JSON_END@
    }

    /// The response that reports this Pokémon: status 200 and its JSON
    /// object.
    pub open spec fn response(self) -> ResponseView {
        ResponseView::json(200, self.json())
    }
}

/// What the lookup of `name` yields once the species client has reported
/// `description`: on success the Pokémon of that name, in lowercase, with
/// that description; on failure the client's error as it is.
pub open spec fn named(name: Seq<char>, description: Result<Seq<char>, ErrorView>) -> Result<
    PokemonView,
    ErrorView,
> {
    match description {
        Ok(text) => Ok(PokemonView { name: lowercased(name), description: text }),
        Err(error) => Err(error),
    }
}

/// A lookup's result with its strings as sequences of characters.
pub open spec fn lookup_view(result: Result<Pokemon, Error>) -> Result<PokemonView, ErrorView> {
    match result {
        Ok(pokemon) => Ok(pokemon@),
        Err(error) => Err(error@),
    }
}

impl Pokemon {
    /// The Pokémon of the given name, once the species client has reported
    /// its description. The name is put in lowercase; a failure of the
    /// client is passed on unchanged.
    pub fn from_name(name: &str, description: Result<String, Error>) -> (result: Result<
        Pokemon,
        Error,
    >)
        ensures
            lookup_view(result) == named(name@, result_view(description)),
    {
        match description {
            Ok(text) => Ok(Pokemon { name: lowercase(name), description: text }),
            Err(error) => Err(error),
        }
    }

    /// The JSON object that reports this Pokémon.
    pub fn json(&self) -> (json: String)
        ensures
            json@ == self@.json(),
    {
        let name = quote_json(self.name.as_str()).unwrap();
        let description = quote_json(self.description.as_str()).unwrap();
        let mut json = JSON_NAME.to_owned();
        json.append(name.as_str());
        json.append(JSON_DESCRIPTION);
        json.append(description.as_str());
        json.append(JSON_END);
        json
    }

    /// The response that reports this Pokémon.
    pub fn response(&self) -> (response: Response)
        ensures
            response@ == self@.response(),
            response@.status == 200,
    {
        Response::json(200, self.json())
    }

    /// Replaces the description and leaves the name as it is.
    pub fn set_description(&mut self, description: String) -> (pokemon: &Self)
        ensures
            final(self)@ == (PokemonView { name: old(self)@.name, description: description@ }),
            pokemon@ == final(self)@,
    {
        self.description = description;
        self
    }
}

impl PartialEq for Pokemon {
    fn eq(&self, other: &Pokemon) -> (r: bool) {
        self.name == other.name && self.description == other.description
    }
}

impl vstd::std_specs::cmp::PartialEqSpecImpl for Pokemon {
    open spec fn obeys_eq_spec() -> bool {
        true
    }

    open spec fn eq_spec(&self, other: &Pokemon) -> bool {
        self@ == other@
    }
}

/// The language of a flavor text.
#[derive(Debug)]
pub struct Language {
    pub name: String,
}

/// One flavor text of a species record, in one language.
#[derive(Debug)]
pub struct FlavorText {
    pub flavor_text: String,
    pub language: Language,
}

/// A species record, as far as the service reads it: the flavor texts in
/// the order in which the upstream lists them.
#[derive(Debug)]
pub struct Species {
    pub flavor_text_entries: Vec<FlavorText>,
}

/// Whether an entry's language tag is exactly `en`.
pub open spec fn is_english(entry: FlavorText) -> bool {
    entry.language.name@ == ENGLISH@
}

/// Whether `at` is the position of the first English entry.
pub open spec fn is_first_english(entries: Seq<FlavorText>, at: int) -> bool {
    &&& 0 <= at < entries.len()
    &&& is_english(entries[at])
    &&& forall|before: int| 0 <= before < at ==> !is_english(#[trigger] entries[before])
}

/// The text of the first English entry, if there is an English entry.
pub open spec fn english_description(entries: Seq<FlavorText>) -> Option<Seq<char>>
    decreases entries.len(),
{
    if entries.len() == 0 {
        None
    } else if is_english(entries[0]) {
        Some(entries[0].flavor_text@)
    } else {
        english_description(entries.drop_first())
    }
}

/// The English description is the text of the entry at the first English
/// position, and there is none exactly when no entry is English.
pub proof fn law_english_description(entries: Seq<FlavorText>)
    ensures
        match english_description(entries) {
            Some(text) => exists|at: int|
                #[trigger] is_first_english(entries, at) && text == entries[at].flavor_text@,
            None => forall|at: int| 0 <= at < entries.len() ==> !is_english(#[trigger] entries[at]),
        },
    decreases entries.len(),
{
    if entries.len() == 0 {
    } else if is_english(entries[0]) {
        assert(is_first_english(entries, 0));
    } else {
        let rest = entries.drop_first();
        law_english_description(rest);
        match english_description(rest) {
            Some(text) => {
                let at = choose|at: int|
                    #[trigger] is_first_english(rest, at) && text == rest[at].flavor_text@;
                assert forall|before: int| 0 <= before < at + 1 implies !is_english(
                    #[trigger] entries[before],
                ) by {
                    if before > 0 {
                        assert(entries[before] == rest[before - 1]);
                    }
                }
                assert(entries[at + 1] == rest[at]);
                assert(is_first_english(entries, at + 1));
            },
            None => {
                assert forall|at: int| 0 <= at < entries.len() implies !is_english(
                    #[trigger] entries[at],
                ) by {
                    if at > 0 {
                        assert(entries[at] == rest[at - 1]);
                    }
                }
            },
        }
    }
}

/// If `at` is the first English position, `english_description` is the text
/// there.
pub proof fn lemma_first_english(entries: Seq<FlavorText>, at: int)
    requires
        is_first_english(entries, at),
    ensures
        english_description(entries) == Some(entries[at].flavor_text@),
    decreases entries.len(),
{
    if at > 0 {
        let rest = entries.drop_first();
        assert(!is_english(entries[0]));
        assert(rest[at - 1] == entries[at]);
        assert forall|before: int| 0 <= before < at - 1 implies !is_english(
            #[trigger] rest[before],
        ) by {
            assert(rest[before] == entries[before + 1]);
        }
        lemma_first_english(rest, at - 1);
    }
}

/// If no entry is English, `english_description` is `None`.
pub proof fn lemma_no_english(entries: Seq<FlavorText>)
    requires
        forall|at: int| 0 <= at < entries.len() ==> !is_english(#[trigger] entries[at]),
    ensures
        english_description(entries) is None,
    decreases entries.len(),
{
    if entries.len() > 0 {
        let rest = entries.drop_first();
        assert(!is_english(entries[0]));
        assert forall|at: int| 0 <= at < rest.len() implies !is_english(#[trigger] rest[at]) by {
            assert(rest[at] == entries[at + 1]);
        }
        lemma_no_english(rest);
    }
}

/// The flavor text of the first entry whose language is English, copied as
/// it is, or `None` when no entry is English.
pub fn get_english_description_from_flavor_text_entries(entries: Vec<FlavorText>) -> (description:
    Option<String>)
    ensures
        match description {
            Some(text) => {
                &&& english_description(entries@) == Some(text@)
                &&& exists|at: int| #[trigger]
                    is_first_english(entries@, at) && text@ == entries@[at].flavor_text@
            },
            None => {
                &&& english_description(entries@) is None
                &&& forall|at: int|
                    0 <= at < entries@.len() ==> !is_english(#[trigger] entries@[at])
            },
        },
{
    let english = ENGLISH.to_owned();
    let mut at: usize = 0;
    while at < entries.len()
        invariant
            at <= entries.len(),
            english@ == ENGLISH@,
            forall|before: int| 0 <= before < at ==> !is_english(#[trigger] entries@[before]),
        decreases entries.len() - at,
    {
        if entries[at].language.name == english {
            proof {
                lemma_first_english(entries@, at as int);
                assert(is_first_english(entries@, at as int));
            }
            return Some(entries[at].flavor_text.clone());
        }
        at += 1;
    }
    proof {
        lemma_no_english(entries@);
    }
    None
}

/// How the exchange with the species service ended.
#[derive(Debug)]
pub enum SpeciesReply {
    /// No HTTP response was received.
    Unreachable,
    /// A response was received.
    Answered {
        /// Its status code.
        status: u16,
        /// Its body as a species record; `None` when the body is not one.
        record: Option<Species>,
    },
}

impl SpeciesReply {
    /// What the reply amounts to: the English flavor text, or the failure.
    ///
    /// A status of 404 means that the name is unknown. A status from 200 to
    /// 299 with a record yields the record's first English flavor text, and
    /// fails when it has none. Everything else is a plain failure.
    pub open spec fn outcome(self) -> Result<Seq<char>, ErrorView> {
        match self {
            SpeciesReply::Unreachable => Err(ErrorView::PokemonApi),
            SpeciesReply::Answered { status, record } => {
                if status == 404 {
                    Err(ErrorView::PokemonNotFound)
                } else if is_success(status) {
                    match record {
                        Some(species) => match english_description(species.flavor_text_entries@) {
                            Some(text) => Ok(text),
                            None => Err(ErrorView::NoPokemonDescription),
                        },
                        None => Err(ErrorView::PokemonApi),
                    }
                } else {
                    Err(ErrorView::PokemonApi)
                }
            },
        }
    }
}

/// The client of the species service. It owns the service's base URL.
#[derive(Debug)]
pub struct PokeApi {
    url: String,
}

impl View for PokeApi {
    type V = Seq<char>;

    /// The base URL that requests are made under.
    closed spec fn view(&self) -> Seq<char> {
        self.url@
    }
}

/// The URL under `base` that holds the species record for `name`.
pub open spec fn species_url(base: Seq<char>, name: Seq<char>) -> Seq<char> {
    base + SPECIES_PATH@ + lowercased(name)
}

impl PokeApi {
    /// The client for the configured base URL, or for the public service
    /// when none is configured.
    pub fn get(configured: Option<String>) -> (api: PokeApi)
        ensures
            api@ == value_or(configured, DEFAULT_POKEAPI_URI@),
    {
        PokeApi { url: resolve(configured, DEFAULT_POKEAPI_URI) }
    }

    /// The client for the service under `url`.
    pub fn new(url: &str) -> (api: PokeApi)
        ensures
            api@ == url@,
    {
        PokeApi { url: url.to_owned() }
    }

    /// The one request that looks `name` up. The name goes into the URL in
    /// lowercase, whatever its case here.
    pub fn request(&self, name: &str) -> (request: Request)
        ensures
            request@ == (RequestView::Species { url: species_url(self@, name@) }),
    {
        let lowered = lowercase(name);
        let mut url = self.url.clone();
        url.append(SPECIES_PATH);
        url.append(lowered.as_str());
        Request::Species { url }
    }

    /// The English flavor text that the upstream's reply holds, or the
    /// failure that the reply amounts to.
    pub fn get_pokemon_description_from_name(reply: SpeciesReply) -> (result: Result<
        String,
        Error,
    >)
        ensures
            result_view(result) == reply.outcome(),
            result matches Err(error) ==> error@.from_species(),
    {
        match reply {
            SpeciesReply::Unreachable => Err(Error::PokemonApi),
            SpeciesReply::Answered { status, record } => {
                if status == 404 {
                    Err(Error::PokemonNotFound)
                } else if 200 <= status && status <= 299 {
                    match record {
                        Some(species) => {
                            match get_english_description_from_flavor_text_entries(
                                species.flavor_text_entries,
                            ) {
                                Some(description) => Ok(description),
                                None => Err(Error::NoPokemonDescription),
                            }
                        },
                        None => Err(Error::PokemonApi),
                    }
                } else {
                    Err(Error::PokemonApi)
                }
            },
        }
    }
}

} // verus!
