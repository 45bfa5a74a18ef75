//! The handler of `GET /pokemon/{name}` as a state machine. It never waits:
//! it says which upstream request to send, is told the reply, and says what
//! to do next, until it hands out the response.
//!
//! ```text
//!  AwaitSpecies  ──ok──▶  AwaitTranslation  ──ok──▶  Done
//!       │                        │
//!       └── err ─▶  Failed  ◀── err ─┘
//! ```

use crate::config::Config;
use crate::error::{Error, ErrorView};
use crate::http::{is_served_status, Request, RequestView, Response, ResponseView};
use crate::pokemon::{named, species_url, PokeApi, Pokemon, PokemonView, SpeciesReply};
use crate::text::{lowercase, lowercased};
use crate::translation::{TranslationReply, Translator};
use vstd::prelude::*;

verus! {

/// The one route that is served, for the method `GET`. The segment `name`
/// is what `Handler::start` takes.
pub const ROUTE: &'static str = "/pokemon/{name}";

/// Where the handling of one request stands.
#[derive(Debug)]
pub enum State {
    /// The species request for `name`, the path segment as received, is out.
    AwaitSpecies { name: String },
    /// The translation request for the description of `pokemon` is out.
    AwaitTranslation { pokemon: Pokemon },
    /// The response that reports `pokemon` has been handed out.
    Done { pokemon: Pokemon },
    /// The response that reports `error` has been handed out.
    Failed { error: Error },
}

/// What a `State` is, with its strings as sequences of characters.
pub enum StateView {
    AwaitSpecies { name: Seq<char> },
    AwaitTranslation { pokemon: PokemonView },
    Done { pokemon: PokemonView },
    Failed { error: ErrorView },
}

impl View for State {
    type V = StateView;

    open spec fn view(&self) -> StateView {
        match *self {
            State::AwaitSpecies { name } => StateView::AwaitSpecies { name: name@ },
            State::AwaitTranslation { pokemon } => StateView::AwaitTranslation {
                pokemon: pokemon@,
            },
            State::Done { pokemon } => StateView::Done { pokemon: pokemon@ },
            State::Failed { error } => StateView::Failed { error: error@ },
        }
    }
}

impl StateView {
    /// Whether the request has been answered.
    pub open spec fn terminal(self) -> bool {
        self is Done || self is Failed
    }
}

impl State {
    /// Whether the request has been answered.
    pub fn is_terminal(&self) -> (terminal: bool)
        ensures
            terminal == self@.terminal(),
    {
        match self {
            State::Done { .. } => true,
            State::Failed { .. } => true,
            _ => false,
        }
    }
}

/// What the handler is told: the end of an exchange with an upstream.
#[derive(Debug)]
pub enum Event {
    /// The species service's reply.
    Species(SpeciesReply),
    /// The translation service's reply.
    Translation(TranslationReply),
}

/// What the handler asks of its caller.
#[derive(Debug)]
pub enum Action {
    /// Send this request upstream and come back with the reply.
    Send(Request),
    /// Give this response to the client; the request is dealt with.
    Respond(Response),
    /// Nothing: the event was not one the handler was waiting for.
    Ignore,
}

/// What an `Action` is, with its strings as sequences of characters.
pub enum ActionView {
    Send(RequestView),
    Respond(ResponseView),
    Ignore,
}

impl View for Action {
    type V = ActionView;

    open spec fn view(&self) -> ActionView {
        match *self {
            Action::Send(request) => ActionView::Send(request@),
            Action::Respond(response) => ActionView::Respond(response@),
            Action::Ignore => ActionView::Ignore,
        }
    }
}

/// The handler with its two upstream clients. It holds no state of a
/// request: that is the `State` which `start` and `step` pass along.
#[derive(Debug)]
pub struct Handler {
    pokeapi: PokeApi,
    translator: Translator,
}

/// What a `Handler` is: the base URL of the species service and the URL of
/// the translation service.
pub struct HandlerView {
    pub pokeapi: Seq<char>,
    pub translator: Seq<char>,
}

impl View for Handler {
    type V = HandlerView;

    closed spec fn view(&self) -> HandlerView {
        HandlerView { pokeapi: self.pokeapi@, translator: self.translator@ }
    }
}

impl HandlerView {
    /// The species request for a path segment: the segment is put in
    /// lowercase and handed to the species client, which asks for it.
    pub open spec fn species_request(self, name: Seq<char>) -> RequestView {
        RequestView::Species { url: species_url(self.pokeapi, lowercased(name)) }
    }

    /// The translation request for an English description.
    pub open spec fn translation_request(self, description: Seq<char>) -> RequestView {
        RequestView::Translation { url: self.translator, text: description }
    }

    /// First state and first action for the path segment `name`.
    pub open spec fn start(self, name: Seq<char>) -> (StateView, ActionView) {
        (StateView::AwaitSpecies { name }, ActionView::Send(self.species_request(name)))
    }

    /// Next state and next action.
    ///
    /// While the species reply is awaited, that reply either yields the
    /// Pokémon with its English description, whose translation is then asked
    /// for, or ends the request with the failure's response. While the
    /// translation is awaited, that reply either yields the translated text,
    /// which replaces the description in the response, or ends the request
    /// with the failure's response. Any other event changes nothing.
    pub open spec fn step(self, state: StateView, event: Event) -> (StateView, ActionView) {
        match (state, event) {
            (StateView::AwaitSpecies { name }, Event::Species(reply)) => match named(
                name,
                reply.outcome(),
            ) {
                Ok(pokemon) => (
                    StateView::AwaitTranslation { pokemon },
                    ActionView::Send(self.translation_request(pokemon.description)),
                ),
                Err(error) => (StateView::Failed { error }, ActionView::Respond(error.response())),
            },
            (StateView::AwaitTranslation { pokemon }, Event::Translation(reply)) => match reply.outcome() {
                Ok(text) => {
                    let translated = PokemonView { name: pokemon.name, description: text };
                    (
                        StateView::Done { pokemon: translated },
                        ActionView::Respond(translated.response()),
                    )
                },
                Err(error) => (StateView::Failed { error }, ActionView::Respond(error.response())),
            },
            _ => (state, ActionView::Ignore),
        }
    }
}

impl Handler {
    /// The handler that uses the two clients.
    pub fn new(pokeapi: PokeApi, translator: Translator) -> (handler: Handler)
        ensures
            handler@ == (HandlerView { pokeapi: pokeapi@, translator: translator@ }),
    {
        Handler { pokeapi, translator }
    }

    /// The handler whose clients go to the configured upstreams.
    pub fn from_config(config: &Config) -> (handler: Handler)
        ensures
            handler@ == (HandlerView {
                pokeapi: config.pokeapi_uri@,
                translator: config.translator_uri@,
            }),
    {
        Handler {
            pokeapi: PokeApi::new(config.pokeapi_uri.as_str()),
            translator: Translator::new(config.translator_uri.as_str()),
        }
    }

    /// Takes up the request for the path segment `name`: the first state,
    /// and the species request to send.
    pub fn start(&self, name: &str) -> (first: (State, Action))
        ensures
            (first.0@, first.1@) == self@.start(name@),
    {
        let lowered = lowercase(name);
        let request = self.pokeapi.request(lowered.as_str());
        (State::AwaitSpecies { name: name.to_owned() }, Action::Send(request))
    }

    /// Takes an event in a state: the next state, and what to do now.
    pub fn step(&self, state: State, event: Event) -> (next: (State, Action))
        ensures
            (next.0@, next.1@) == self@.step(state@, event),
            next.1 is Respond <==> !state@.terminal() && next.0@.terminal(),
            next.1 matches Action::Respond(response) ==> is_served_status(response.status),
    {
        match state {
            State::AwaitSpecies { name } => match event {
                Event::Species(reply) => {
                    let description = PokeApi::get_pokemon_description_from_name(reply);
                    match Pokemon::from_name(name.as_str(), description) {
                        Ok(pokemon) => {
                            let request = self.translator.request(pokemon.description.as_str());
                            (State::AwaitTranslation { pokemon }, Action::Send(request))
                        },
                        Err(error) => {
                            let response = error.error_response();
                            (State::Failed { error }, Action::Respond(response))
                        },
                    }
                },
                Event::Translation(_) => (State::AwaitSpecies { name }, Action::Ignore),
            },
            State::AwaitTranslation { pokemon } => match event {
                Event::Translation(reply) => {
                    match Translator::get_shakespearean_translation(reply) {
                        Ok(text) => {
                            let mut pokemon = pokemon;
                            pokemon.set_description(text);
                            let response = pokemon.response();
                            (State::Done { pokemon }, Action::Respond(response))
                        },
                        Err(error) => {
                            let response = error.error_response();
                            (State::Failed { error }, Action::Respond(response))
                        },
                    }
                },
                Event::Species(_) => (State::AwaitTranslation { pokemon }, Action::Ignore),
            },
            State::Done { pokemon } => (State::Done { pokemon }, Action::Ignore),
            State::Failed { error } => (State::Failed { error }, Action::Ignore),
        }
    }
}

} // verus!
