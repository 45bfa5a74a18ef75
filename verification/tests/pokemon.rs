//! The species client against canned upstream answers.

use shakesemon::error::Error;
use shakesemon::http::{Method, Request};
use shakesemon::pokemon::{
    get_english_description_from_flavor_text_entries, FlavorText, Language, PokeApi, Pokemon,
    Species, SpeciesReply,
};

const BASE: &str = "http://127.0.0.1:4010";

const PIKACHU_DESCRIPTION: &str = "When several of\nthese POKéMON\ngather, their\nelectricity could\nbuild and cause\nlightning storms.";

const PIKACHU_BODY: &str = r#"{"flavor_text_entries":[{"flavor_text":"When several of\nthese POKéMON\ngather, their\nelectricity could\nbuild and cause\nlightning storms.","language":{"name":"en"}}]}"#;

const SPANISH_BODY: &str = r#"{"flavor_text_entries":[{"flavor_text":"When several of\nthese POKéMON\ngather, their\nelectricity could\nbuild and cause\nlightning storms.","language":{"name":"es"}}]}"#;

const EMPTY_BODY: &str = r#"{"flavor_text_entries":[]}"#;

/// Reads a body as a species record, the way the service's caller does.
fn record(body: &str) -> Option<Species> {
    let value = serde_json::from_str::<serde_json::Value>(body).ok()?;
    let mut flavor_text_entries = Vec::new();
    for entry in value.get("flavor_text_entries")?.as_array()? {
        flavor_text_entries.push(FlavorText {
            flavor_text: entry.get("flavor_text")?.as_str()?.to_owned(),
            language: Language { name: entry.get("language")?.get("name")?.as_str()?.to_owned() },
        });
    }
    Some(Species { flavor_text_entries })
}

/// A stand-in for the species service: it knows four paths.
fn upstream(request: &Request) -> SpeciesReply {
    let url = match request {
        Request::Species { url } => url,
        Request::Translation { .. } => panic!("not a species request"),
    };
    if url.ends_with("/pikachu") {
        SpeciesReply::Answered { status: 200, record: record(PIKACHU_BODY) }
    } else if url.ends_with("/invalidpokemonname") {
        SpeciesReply::Answered { status: 404, record: record("Not Found") }
    } else if url.ends_with("/nodescription") {
        SpeciesReply::Answered { status: 200, record: record(EMPTY_BODY) }
    } else if url.ends_with("/noenglishdescription") {
        SpeciesReply::Answered { status: 200, record: record(SPANISH_BODY) }
    } else {
        SpeciesReply::Answered { status: 404, record: None }
    }
}

fn describe(name: &str) -> Result<String, Error> {
    let api = PokeApi::get(Some(BASE.to_owned()));
    let reply = upstream(&api.request(name));
    PokeApi::get_pokemon_description_from_name(reply)
}

fn entry(text: &str, language: &str) -> FlavorText {
    FlavorText { flavor_text: text.to_owned(), language: Language { name: language.to_owned() } }
}

#[test]
fn test_get_pokemon_description_from_name() {
    assert_eq!(
        describe("pikachu"),
        Ok("When several of\nthese POKéMON\ngather, their\nelectricity could\nbuild and cause\nlightning storms.".to_owned())
    );
}

#[test]
fn test_get_no_description_error() {
    assert_eq!(describe("noDescription"), Err(Error::NoPokemonDescription));
    assert_eq!(describe("noEnglishDescription"), Err(Error::NoPokemonDescription));
}

#[test]
fn test_get_pikachu_not_found_error() {
    assert_eq!(describe("invalidPokemonName"), Err(Error::PokemonNotFound));
}

#[test]
fn request_appends_the_species_path_and_the_lowercase_name() {
    let api = PokeApi::new("https://pokeapi.co/api/v2");
    assert_eq!(
        api.request("PIKACHU"),
        Request::Species { url: "https://pokeapi.co/api/v2/pokemon-species/pikachu".to_owned() }
    );
    assert_eq!(
        api.request("Mr-Mime"),
        Request::Species { url: "https://pokeapi.co/api/v2/pokemon-species/mr-mime".to_owned() }
    );
}

#[test]
fn species_request_is_a_get_without_a_body() {
    let request = PokeApi::new(BASE).request("Pikachu");
    assert_eq!(request.method(), Method::Get);
    assert_eq!(request.url(), "http://127.0.0.1:4010/pokemon-species/pikachu");
    assert_eq!(request.form(), None);
}

#[test]
fn species_client_defaults_to_the_public_service() {
    assert_eq!(
        PokeApi::get(None).request("ditto"),
        Request::Species { url: "https://pokeapi.co/api/v2/pokemon-species/ditto".to_owned() }
    );
    assert_eq!(
        PokeApi::get(Some("http://localhost:9".to_owned())).request("ditto"),
        Request::Species { url: "http://localhost:9/pokemon-species/ditto".to_owned() }
    );
}

#[test]
fn unreachable_species_service_is_an_api_error() {
    assert_eq!(
        PokeApi::get_pokemon_description_from_name(SpeciesReply::Unreachable),
        Err(Error::PokemonApi)
    );
}

#[test]
fn undecodable_species_body_is_an_api_error() {
    let reply = SpeciesReply::Answered { status: 200, record: record("{\"flavor_text_entries\":7}") };
    assert_eq!(PokeApi::get_pokemon_description_from_name(reply), Err(Error::PokemonApi));
}

#[test]
fn other_statuses_of_the_species_service_are_api_errors() {
    for status in [100u16, 199, 300, 301, 400, 403, 405, 429, 500, 503] {
        let reply = SpeciesReply::Answered { status, record: record(PIKACHU_BODY) };
        assert_eq!(PokeApi::get_pokemon_description_from_name(reply), Err(Error::PokemonApi));
    }
}

#[test]
fn every_success_status_of_the_species_service_is_read() {
    for status in [200u16, 201, 204, 299] {
        let reply = SpeciesReply::Answered { status, record: record(PIKACHU_BODY) };
        assert_eq!(
            PokeApi::get_pokemon_description_from_name(reply),
            Ok(PIKACHU_DESCRIPTION.to_owned())
        );
    }
}

#[test]
fn not_found_wins_over_whatever_the_body_holds() {
    let reply = SpeciesReply::Answered { status: 404, record: record(PIKACHU_BODY) };
    assert_eq!(PokeApi::get_pokemon_description_from_name(reply), Err(Error::PokemonNotFound));
}

#[test]
fn first_english_entry_is_picked() {
    let entries = vec![
        entry("uno", "es"),
        entry("eins", "de"),
        entry("one", "en"),
        entry("another", "en"),
        entry("un", "fr"),
    ];
    assert_eq!(
        get_english_description_from_flavor_text_entries(entries),
        Some("one".to_owned())
    );
}

#[test]
fn language_tag_is_compared_exactly() {
    let entries = vec![entry("a", "EN"), entry("b", "en-US"), entry("c", " en"), entry("d", "")];
    assert_eq!(get_english_description_from_flavor_text_entries(entries), None);
    assert_eq!(get_english_description_from_flavor_text_entries(Vec::new()), None);
}

#[test]
fn english_text_is_copied_unchanged() {
    let text = "Línea uno\n\u{c}second — line\t\"quoted\" \\ ✓";
    let entries = vec![entry("nada", "es"), entry(text, "en")];
    assert_eq!(get_english_description_from_flavor_text_entries(entries), Some(text.to_owned()));
}

#[test]
fn from_name_lowercases_the_name_and_keeps_the_description() {
    let pokemon = Pokemon::from_name("PikaCHU", Ok("Bolt.".to_owned()));
    assert_eq!(
        pokemon,
        Ok(Pokemon { name: "pikachu".to_owned(), description: "Bolt.".to_owned() })
    );
    let pokemon = Pokemon::from_name("ÉVOLI", Ok(String::new()));
    assert_eq!(pokemon, Ok(Pokemon { name: "évoli".to_owned(), description: String::new() }));
}

#[test]
fn from_name_passes_a_failure_on() {
    assert_eq!(Pokemon::from_name("x", Err(Error::PokemonNotFound)), Err(Error::PokemonNotFound));
    assert_eq!(
        Pokemon::from_name("x", Err(Error::NoPokemonDescription)),
        Err(Error::NoPokemonDescription)
    );
    assert_eq!(Pokemon::from_name("x", Err(Error::PokemonApi)), Err(Error::PokemonApi));
}

#[test]
fn set_description_replaces_the_description_only() {
    let mut pokemon = Pokemon { name: "pikachu".to_owned(), description: "plain".to_owned() };
    let updated = pokemon.set_description("fancy".to_owned());
    assert_eq!(updated.name, "pikachu");
    assert_eq!(updated.description, "fancy");
    assert_eq!(pokemon, Pokemon { name: "pikachu".to_owned(), description: "fancy".to_owned() });
}

#[test]
fn json_quotes_both_members() {
    let pokemon = Pokemon { name: "a\"b".to_owned(), description: "line\nfeed \\ é".to_owned() };
    assert_eq!(pokemon.json(), r#"{"name":"a\"b","description":"line\nfeed \\ é"}"#);
    let value = serde_json::from_str::<serde_json::Value>(&pokemon.json()).unwrap();
    assert_eq!(value.get("name").unwrap().as_str(), Some("a\"b"));
    assert_eq!(value.get("description").unwrap().as_str(), Some("line\nfeed \\ é"));
}

#[test]
fn success_response_is_json_with_status_200() {
    let pokemon = Pokemon { name: "ditto".to_owned(), description: "It can.".to_owned() };
    let response = pokemon.response();
    assert_eq!(response.status, 200);
    assert_eq!(response.content_type, "application/json");
    assert_eq!(response.body, r#"{"name":"ditto","description":"It can."}"#);
}
