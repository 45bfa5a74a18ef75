//! The failures and their responses, and the settings' defaults.

use shakesemon::config::{
    resolve, Config, BIND_ADDRESS, POKEAPI_URI, SHAKESPEARE_TRANSLATOR_URI,
};
use shakesemon::error::Error;
use shakesemon::http::Response;

fn envelope(code: u64, message: &str) -> String {
    let mut inner = serde_json::Map::new();
    inner.insert("code".to_owned(), serde_json::Value::from(code));
    inner.insert("message".to_owned(), serde_json::Value::from(message));
    let mut outer = serde_json::Map::new();
    outer.insert("error".to_owned(), serde_json::Value::Object(inner));
    serde_json::to_string(&serde_json::Value::Object(outer)).unwrap()
}

#[test]
fn translation_api_error_response() {
    let response = Error::TranslationApi.error_response();
    assert_eq!(response.status, 400);
    assert_eq!(response.content_type, "application/json");
    assert_eq!(response.body, r#"{"error":{"code":400,"message":"Translation API Error."}}"#);
}

#[test]
fn rate_limit_response_passes_the_body_through() {
    let upstream = "{\"error\":{\"code\":429,\"message\":\"Too Many Requests\"}}\n";
    let response = Error::TranslationApiRateLimit(upstream.to_owned()).error_response();
    assert_eq!(response.status, 429);
    assert_eq!(response.content_type, "application/json");
    assert_eq!(response.body, upstream);

    let response = Error::TranslationApiRateLimit(String::new()).error_response();
    assert_eq!(response, Response { status: 429, content_type: "application/json".to_owned(), body: String::new() });
}

#[test]
fn pokemon_api_error_response() {
    let response = Error::PokemonApi.error_response();
    assert_eq!(response.status, 400);
    assert_eq!(response.content_type, "application/json");
    assert_eq!(response.body, r#"{"error":{"code":400,"message":"Pokemon API Error."}}"#);
}

#[test]
fn pokemon_not_found_response() {
    let response = Error::PokemonNotFound.error_response();
    assert_eq!(response.status, 404);
    assert_eq!(response.content_type, "application/json");
    assert_eq!(response.body, r#"{"error":{"code":404,"message":"Pokemon Not Found"}}"#);
}

#[test]
fn no_pokemon_description_response() {
    let response = Error::NoPokemonDescription.error_response();
    assert_eq!(response.status, 404);
    assert_eq!(response.content_type, "application/json");
    assert_eq!(
        response.body,
        r#"{"error":{"code":404,"message":"Pokemon Description Not Found"}}"#
    );
}

#[test]
fn fixed_bodies_are_what_a_json_writer_gives() {
    assert_eq!(Error::TranslationApi.body(), envelope(400, "Translation API Error."));
    assert_eq!(Error::PokemonApi.body(), envelope(400, "Pokemon API Error."));
    assert_eq!(Error::PokemonNotFound.body(), envelope(404, "Pokemon Not Found"));
    assert_eq!(Error::NoPokemonDescription.body(), envelope(404, "Pokemon Description Not Found"));
}

#[test]
fn status_code_and_body_agree_with_the_response() {
    let errors = [
        Error::TranslationApi,
        Error::TranslationApiRateLimit("wait".to_owned()),
        Error::PokemonApi,
        Error::PokemonNotFound,
        Error::NoPokemonDescription,
    ];
    for error in errors {
        let response = error.error_response();
        assert_eq!(response.status, error.status_code());
        assert_eq!(response.body, error.body());
        assert!(matches!(response.status, 400 | 404 | 429));
    }
}

#[test]
fn errors_compare_by_kind_and_payload() {
    assert_eq!(Error::PokemonApi, Error::PokemonApi);
    assert_ne!(Error::PokemonApi, Error::TranslationApi);
    assert_ne!(Error::PokemonNotFound, Error::NoPokemonDescription);
    assert_eq!(
        Error::TranslationApiRateLimit("a".to_owned()),
        Error::TranslationApiRateLimit("a".to_owned())
    );
    assert_ne!(
        Error::TranslationApiRateLimit("a".to_owned()),
        Error::TranslationApiRateLimit("b".to_owned())
    );
    assert_eq!(Error::TranslationApiRateLimit("a".to_owned()).clone(), Error::TranslationApiRateLimit("a".to_owned()));
}

#[test]
fn settings_default_when_nothing_is_configured() {
    let config = Config::resolve(None, None, None);
    assert_eq!(config.pokeapi_uri, "https://pokeapi.co/api/v2");
    assert_eq!(
        config.translator_uri,
        "https://api.funtranslations.com/translate/shakespeare.json"
    );
    assert_eq!(config.bind_address, "127.0.0.1:0");
}

#[test]
fn configured_settings_are_taken_as_they_are() {
    let config = Config::resolve(
        Some("http://localhost:1/".to_owned()),
        Some(String::new()),
        Some("0.0.0.0:8080".to_owned()),
    );
    assert_eq!(config.pokeapi_uri, "http://localhost:1/");
    assert_eq!(config.translator_uri, "");
    assert_eq!(config.bind_address, "0.0.0.0:8080");
    assert_eq!(resolve(None, "fallback"), "fallback");
    assert_eq!(resolve(Some("set".to_owned()), "fallback"), "set");
}

#[test]
fn variable_names() {
    assert_eq!(POKEAPI_URI, "POKEAPI_URI");
    assert_eq!(SHAKESPEARE_TRANSLATOR_URI, "SHAKESPEARE_TRANSLATOR_URI");
    assert_eq!(BIND_ADDRESS, "BIND_ADDRESS");
}
