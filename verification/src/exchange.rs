//! What holds of the handling of a request as a whole: of everything the
//! handler asks for from `start` on, whatever events it is told and in
//! whatever order.

use crate::error::ErrorView;
use crate::handler::{ActionView, Event, HandlerView, StateView};
use crate::http::{is_served_status, RequestView, ResponseView};
use crate::pokemon::{PokemonView, SpeciesReply};
use crate::text::lowercased;
use crate::translation::TranslationReply;
use vstd::prelude::*;

verus! {

/// The requests among the actions, in order.
pub open spec fn requests(actions: Seq<ActionView>) -> Seq<RequestView>
    decreases actions.len(),
{
    if actions.len() == 0 {
        Seq::empty()
    } else {
        let before = requests(actions.drop_last());
        match actions.last() {
            ActionView::Send(request) => before.push(request),
            _ => before,
        }
    }
}

/// The responses among the actions, in order.
pub open spec fn responses(actions: Seq<ActionView>) -> Seq<ResponseView>
    decreases actions.len(),
{
    if actions.len() == 0 {
        Seq::empty()
    } else {
        let before = responses(actions.drop_last());
        match actions.last() {
            ActionView::Respond(response) => before.push(response),
            _ => before,
        }
    }
}

/// Whether the event at `at` is a species reply that yields the English
/// flavor text `text`.
pub open spec fn described_at(events: Seq<Event>, at: int, text: Seq<char>) -> bool {
    &&& 0 <= at < events.len()
    &&& events[at] matches Event::Species(reply)
    &&& reply.outcome() == Ok::<Seq<char>, ErrorView>(text)
}

/// Whether the event at `at` is a translation reply that yields `text`.
pub open spec fn translated_at(events: Seq<Event>, at: int, text: Seq<char>) -> bool {
    &&& 0 <= at < events.len()
    &&& events[at] matches Event::Translation(reply)
    &&& reply.outcome() == Ok::<Seq<char>, ErrorView>(text)
}

impl HandlerView {
    /// The handling of the request for `name` up to and including the last
    /// of `events`: the state reached, and every action from the first on.
    pub open spec fn run(self, name: Seq<char>, events: Seq<Event>) -> (StateView, Seq<ActionView>)
        decreases events.len(),
    {
        if events.len() == 0 {
            let (state, action) = self.start(name);
            (state, seq![action])
        } else {
            let (state, actions) = self.run(name, events.drop_last());
            let (next, action) = self.step(state, events.last());
            (next, actions.push(action))
        }
    }

    /// Whether the requests are those of a handling that got as far as the
    /// translation: the species request, then the translation request for
    /// the English flavor text that a species reply among the events
    /// yielded.
    pub open spec fn asked_both(
        self,
        name: Seq<char>,
        events: Seq<Event>,
        asked: Seq<RequestView>,
    ) -> bool {
        &&& asked.len() == 2
        &&& asked[0] == self.species_request(name)
        &&& exists|at: int, english: Seq<char>| #[trigger]
            described_at(events, at, english) && asked[1] == self.translation_request(english)
    }

    /// What a state says of the events that led to it and of the actions so
    /// far.
    spec fn consistent(
        self,
        name: Seq<char>,
        events: Seq<Event>,
        state: StateView,
        actions: Seq<ActionView>,
    ) -> bool {
        let asked = requests(actions);
        let answered = responses(actions);
        match state {
            StateView::AwaitSpecies { name: held } => {
                &&& held == name
                &&& asked == seq![self.species_request(name)]
                &&& answered.len() == 0
            },
            StateView::AwaitTranslation { pokemon } => {
                &&& pokemon.name == lowercased(name)
                &&& exists|at: int| #[trigger] described_at(events, at, pokemon.description)
                &&& asked == seq![
                    self.species_request(name),
                    self.translation_request(pokemon.description),
                ]
                &&& answered.len() == 0
            },
            StateView::Done { pokemon } => {
                &&& pokemon.name == lowercased(name)
                &&& exists|at: int| #[trigger] translated_at(events, at, pokemon.description)
                &&& self.asked_both(name, events, asked)
                &&& answered == seq![pokemon.response()]
            },
            StateView::Failed { error } => {
                &&& answered == seq![error.response()]
                &&& if error.from_species() {
                    asked == seq![self.species_request(name)]
                } else {
                    self.asked_both(name, events, asked)
                }
            },
        }
    }
}

proof fn lemma_push(actions: Seq<ActionView>, action: ActionView)
    ensures
        requests(actions.push(action)) == match action {
            ActionView::Send(request) => requests(actions).push(request),
            _ => requests(actions),
        },
        responses(actions.push(action)) == match action {
            ActionView::Respond(response) => responses(actions).push(response),
            _ => responses(actions),
        },
{
    assert(actions.push(action).drop_last() == actions);
}

proof fn lemma_asked_both_grows(
    handler: HandlerView,
    name: Seq<char>,
    events: Seq<Event>,
    asked: Seq<RequestView>,
)
    requires
        events.len() > 0,
        handler.asked_both(name, events.drop_last(), asked),
    ensures
        handler.asked_both(name, events, asked),
{
    let earlier = events.drop_last();
    let (at, english) = choose|at: int, english: Seq<char>| #[trigger]
        described_at(earlier, at, english) && asked[1] == handler.translation_request(english);
    assert(events[at] == earlier[at]);
    assert(described_at(events, at, english));
}

proof fn lemma_run_consistent(handler: HandlerView, name: Seq<char>, events: Seq<Event>)
    ensures
        handler.consistent(name, events, handler.run(name, events).0, handler.run(name, events).1),
    decreases events.len(),
{
    if events.len() == 0 {
        let (state, action) = handler.start(name);
        lemma_push(Seq::empty(), action);
        assert(seq![action] == Seq::<ActionView>::empty().push(action));
        assert(requests(seq![action]) == seq![handler.species_request(name)]);
    } else {
        let earlier = events.drop_last();
        let (state, actions) = handler.run(name, earlier);
        let (next, action) = handler.step(state, events.last());
        lemma_run_consistent(handler, name, earlier);
        lemma_push(actions, action);
        let asked = requests(actions.push(action));
        let answered = responses(actions.push(action));
        match next {
            StateView::AwaitSpecies { .. } => {},
            StateView::AwaitTranslation { pokemon } => {
                if state is AwaitTranslation {
                    let at = choose|at: int| #[trigger]
                        described_at(earlier, at, pokemon.description);
                    assert(events[at] == earlier[at]);
                    assert(described_at(events, at, pokemon.description));
                } else {
                    assert(described_at(events, events.len() - 1, pokemon.description));
                    assert(asked == seq![
                        handler.species_request(name),
                        handler.translation_request(pokemon.description),
                    ]);
                }
            },
            StateView::Done { pokemon } => {
                if state is Done {
                    let at = choose|at: int| #[trigger]
                        translated_at(earlier, at, pokemon.description);
                    assert(events[at] == earlier[at]);
                    assert(translated_at(events, at, pokemon.description));
                    lemma_asked_both_grows(handler, name, events, asked);
                } else {
                    let english = state->AwaitTranslation_pokemon.description;
                    let at = choose|at: int| #[trigger] described_at(earlier, at, english);
                    assert(events[at] == earlier[at]);
                    assert(described_at(events, at, english));
                    assert(translated_at(events, events.len() - 1, pokemon.description));
                    assert(answered == seq![pokemon.response()]);
                }
            },
            StateView::Failed { error } => {
                if state is Failed {
                    if !error.from_species() {
                        lemma_asked_both_grows(handler, name, events, asked);
                    }
                } else if state is AwaitTranslation {
                    let english = state->AwaitTranslation_pokemon.description;
                    let at = choose|at: int| #[trigger] described_at(earlier, at, english);
                    assert(events[at] == earlier[at]);
                    assert(described_at(events, at, english));
                    assert(answered == seq![error.response()]);
                } else {
                    assert(answered == seq![error.response()]);
                }
            },
        }
    }
}

/// The handling of a request that is told the replies it asked for.
///
/// The species reply alone ends the request if the lookup failed: then the
/// species request was the only one, and the failure's response is handed
/// out. Otherwise the translation of the English flavor text is asked for,
/// and the translation reply ends the request: with the response for the
/// Pokémon whose name is the path segment in lowercase and whose description
/// is the translated text, or with the failure's response.
pub proof fn law_exchange(
    handler: HandlerView,
    name: Seq<char>,
    species: SpeciesReply,
    translation: TranslationReply,
)
    ensures
        ({
            let asks_species = ActionView::Send(handler.species_request(name));
            let first = handler.run(name, seq![Event::Species(species)]);
            let second = handler.run(
                name,
                seq![Event::Species(species), Event::Translation(translation)],
            );
            match species.outcome() {
                Err(error) => first == (
                    StateView::Failed { error },
                    seq![asks_species, ActionView::Respond(error.response())],
                ),
                Ok(english) => {
                    let asks_translation = ActionView::Send(handler.translation_request(english));
                    &&& first == (
                        StateView::AwaitTranslation {
                            pokemon: PokemonView { name: lowercased(name), description: english },
                        },
                        seq![asks_species, asks_translation],
                    )
                    &&& match translation.outcome() {
                        Ok(text) => {
                            let pokemon = PokemonView { name: lowercased(name), description: text };
                            second == (
                                StateView::Done { pokemon },
                                seq![
                                    asks_species,
                                    asks_translation,
                                    ActionView::Respond(pokemon.response()),
                                ],
                            )
                        },
                        Err(error) => second == (
                            StateView::Failed { error },
                            seq![
                                asks_species,
                                asks_translation,
                                ActionView::Respond(error.response()),
                            ],
                        ),
                    }
                },
            }
        }),
{
    let one = seq![Event::Species(species)];
    let two = seq![Event::Species(species), Event::Translation(translation)];
    assert(one.drop_last() == Seq::<Event>::empty());
    assert(two.drop_last() == one);
    reveal_with_fuel(HandlerView::run, 3);
    let asks_species = ActionView::Send(handler.species_request(name));
    let first = handler.run(name, one);
    let second = handler.run(name, two);
    match species.outcome() {
        Err(error) => {
            assert(first.1 == seq![asks_species, ActionView::Respond(error.response())]);
        },
        Ok(english) => {
            let asks_translation = ActionView::Send(handler.translation_request(english));
            assert(first.1 == seq![asks_species, asks_translation]);
            match translation.outcome() {
                Ok(text) => {
                    let pokemon = PokemonView { name: lowercased(name), description: text };
                    assert(second.1 == seq![
                        asks_species,
                        asks_translation,
                        ActionView::Respond(pokemon.response()),
                    ]);
                },
                Err(error) => {
                    assert(second.1 == seq![
                        asks_species,
                        asks_translation,
                        ActionView::Respond(error.response()),
                    ]);
                },
            }
        },
    }
}

/// However many events arrive and whatever they are, the handler hands out
/// no response before the request is dealt with and exactly one once it is,
/// and that response has one of the four statuses 200, 400, 404 and 429.
pub proof fn law_single_response(handler: HandlerView, name: Seq<char>, events: Seq<Event>)
    ensures
        ({
            let (state, actions) = handler.run(name, events);
            let answered = responses(actions);
            &&& state.terminal() ==> answered.len() == 1 && is_served_status(answered[0].status)
            &&& !state.terminal() ==> answered.len() == 0
        }),
{
    lemma_run_consistent(handler, name, events);
}

/// The two replies that the handler asks for, told in turn, always deal
/// with the request; and when the species lookup fails, its reply alone
/// does.
pub proof fn law_replies_end_the_request(
    handler: HandlerView,
    name: Seq<char>,
    species: SpeciesReply,
    translation: TranslationReply,
)
    ensures
        handler.run(
            name,
            seq![Event::Species(species), Event::Translation(translation)],
        ).0.terminal(),
        species.outcome() is Err ==> handler.run(name, seq![Event::Species(species)]).0.terminal(),
{
    law_exchange(handler, name, species, translation);
    if species.outcome() is Err {
        let one = seq![Event::Species(species)];
        let two = seq![Event::Species(species), Event::Translation(translation)];
        assert(two.drop_last() == one);
    }
}

/// Whatever the events, the upstream requests so far are the species
/// request alone, or the species request followed by the translation request
/// for the English flavor text that a species reply yielded. A request that
/// was answered with a Pokémon has caused exactly these two, in this order.
pub proof fn law_request_order(handler: HandlerView, name: Seq<char>, events: Seq<Event>)
    ensures
        ({
            let (state, actions) = handler.run(name, events);
            let asked = requests(actions);
            &&& asked == seq![handler.species_request(name)] || handler.asked_both(
                name,
                events,
                asked,
            )
            &&& state is Done ==> handler.asked_both(name, events, asked)
            &&& state is AwaitSpecies ==> asked.len() == 1
        }),
{
    lemma_run_consistent(handler, name, events);
    let (state, actions) = handler.run(name, events);
    if let StateView::AwaitTranslation { pokemon } = state {
        let at = choose|at: int| #[trigger] described_at(events, at, pokemon.description);
        assert(described_at(events, at, pokemon.description));
    }
}

/// Once the species lookup has failed, no translation is ever asked for:
/// whatever events follow, the species request stays the only request, and
/// the failure's response the only response.
pub proof fn law_species_failure_ends(handler: HandlerView, name: Seq<char>, events: Seq<Event>)
    requires
        events.len() > 0,
        events[0] matches Event::Species(reply) && reply.outcome() is Err,
    ensures
        ({
            let (state, actions) = handler.run(name, events);
            &&& events[0] matches Event::Species(reply)
            &&& state == (StateView::Failed { error: reply.outcome()->Err_0 })
            &&& requests(actions) == seq![handler.species_request(name)]
            &&& responses(actions) == seq![reply.outcome()->Err_0.response()]
        }),
    decreases events.len(),
{
    let earlier = events.drop_last();
    let (state, actions) = handler.run(name, earlier);
    let (next, action) = handler.step(state, events.last());
    lemma_push(actions, action);
    if events.len() == 1 {
        lemma_run_consistent(handler, name, earlier);
        assert(events.last() == events[0]);
        let error = events[0]->Species_0.outcome()->Err_0;
        assert(responses(actions.push(action)) == seq![error.response()]);
    } else {
        assert(earlier[0] == events[0]);
        law_species_failure_ends(handler, name, earlier);
    }
}

/// A request that was answered with a Pokémon was answered with the path
/// segment in lowercase as its name and with the text of a translation
/// reply as its description, in the one response that reports the two.
pub proof fn law_success_names_the_request(
    handler: HandlerView,
    name: Seq<char>,
    events: Seq<Event>,
)
    requires
        handler.run(name, events).0 is Done,
    ensures
        ({
            let (state, actions) = handler.run(name, events);
            let pokemon = state->Done_pokemon;
            &&& pokemon.name == lowercased(name)
            &&& exists|at: int| #[trigger] translated_at(events, at, pokemon.description)
            &&& responses(actions) == seq![ResponseView::json(200, pokemon.json())]
        }),
{
    lemma_run_consistent(handler, name, events);
    let pokemon = handler.run(name, events).0->Done_pokemon;
    let at = choose|at: int| #[trigger] translated_at(events, at, pokemon.description);
    assert(translated_at(events, at, pokemon.description));
}

/// The description that a request is answered with is not empty, unless the
/// translation service sent the empty text.
pub proof fn law_success_describes(
    handler: HandlerView,
    name: Seq<char>,
    species: SpeciesReply,
    translation: TranslationReply,
)
    requires
        handler.run(name, seq![Event::Species(species), Event::Translation(translation)]).0 is Done,
        translation.outcome() != Ok::<Seq<char>, ErrorView>(Seq::empty()),
    ensures
        ({
            let state = handler.run(
                name,
                seq![Event::Species(species), Event::Translation(translation)],
            ).0;
            &&& state->Done_pokemon.name == lowercased(name)
            &&& state->Done_pokemon.description.len() > 0
        }),
{
    law_exchange(handler, name, species, translation);
    let one = seq![Event::Species(species)];
    let two = seq![Event::Species(species), Event::Translation(translation)];
    assert(two.drop_last() == one);
    if let Ok(text) = translation.outcome() {
        assert(text.len() == 0 ==> text =~= Seq::<char>::empty());
    }
}

/// If the translation service gives back the very text it was sent, the
/// description in the response is the species' English flavor text,
/// character for character.
pub proof fn law_round_trip(
    handler: HandlerView,
    name: Seq<char>,
    species: SpeciesReply,
    translation: TranslationReply,
)
    requires
        species.outcome() is Ok,
        translation.outcome() == species.outcome(),
    ensures
        ({
            let english = species.outcome()->Ok_0;
            let pokemon = PokemonView { name: lowercased(name), description: english };
            handler.run(name, seq![Event::Species(species), Event::Translation(translation)]) == (
                StateView::Done { pokemon },
                seq![
                    ActionView::Send(handler.species_request(name)),
                    ActionView::Send(handler.translation_request(english)),
                    ActionView::Respond(pokemon.response()),
                ],
            )
        }),
{
    law_exchange(handler, name, species, translation);
}

} // verus!
