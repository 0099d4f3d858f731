use command_bot::commands::{help_text, Command};
use command_bot::config::Config;
use command_bot::dispatch::{dispatch, fetch_request, FetchRequest};
use command_bot::errors::FetchError;

const FALLBACK: &str = "https://bit.ly/2Yzl1GH";

fn all_commands() -> Vec<Command> {
    vec![
        Command::Help,
        Command::Btc,
        Command::Doge,
        Command::Eth,
        Command::Woj,
        Command::Wsb,
        Command::Tweet(String::from("wojespn")),
        Command::Tsla,
        Command::Gme,
        Command::Quote(String::from("GME")),
    ]
}

fn full_config() -> Config {
    Config {
        timeline_bearer: Some(String::from("bearer-token")),
        quote_api_key: Some(String::from("api-key")),
    }
}

fn empty_config() -> Config {
    Config { timeline_bearer: None, quote_api_key: None }
}

#[test]
fn dispatch_help_returns_generated_listing() {
    // The outcome argument is ignored for Help: its listing needs no fetch.
    let reply = dispatch(&Command::Help, Err(FetchError::Transport));
    assert_eq!(reply, help_text());
}

#[test]
fn dispatch_passes_fetched_text_through_unchanged() {
    let reply = dispatch(&Command::Btc, Ok(String::from("56,244.2088")));
    assert_eq!(reply, "56,244.2088");
}

#[test]
fn dispatch_transport_error_gives_exact_fallback() {
    for command in all_commands() {
        if matches!(command, Command::Help) {
            continue;
        }
        let reply = dispatch(&command, Err(FetchError::Transport));
        assert_eq!(reply.as_bytes(), FALLBACK.as_bytes());
    }
}

#[test]
fn dispatch_swallows_every_error_kind() {
    let errors = [
        FetchError::Configuration,
        FetchError::Transport,
        FetchError::UpstreamStatus(500),
        FetchError::MalformedResponse,
    ];
    for e in errors {
        assert_eq!(dispatch(&Command::Gme, Err(e)), FALLBACK);
    }
}

#[test]
fn dispatch_never_returns_an_empty_reply() {
    for command in all_commands() {
        let on_success = dispatch(&command, Ok(String::from("1821.67")));
        assert!(!on_success.is_empty());
        let on_error = dispatch(&command, Err(FetchError::MalformedResponse));
        assert!(!on_error.is_empty());
    }
}

#[test]
fn fetch_request_help_needs_no_fetch() {
    let r = fetch_request(&Command::Help, &empty_config());
    assert!(matches!(r, Ok(None)));
}

#[test]
fn fetch_request_fixed_price_commands_need_no_credential() {
    let config = empty_config();
    assert!(matches!(
        fetch_request(&Command::Btc, &config),
        Ok(Some(FetchRequest::PriceIndex))
    ));
    assert!(matches!(
        fetch_request(&Command::Doge, &config),
        Ok(Some(FetchRequest::DogePriceList))
    ));
    assert!(matches!(
        fetch_request(&Command::Eth, &config),
        Ok(Some(FetchRequest::EthCurrencyMap))
    ));
}

#[test]
fn fetch_request_missing_bearer_is_configuration_error() {
    let config = empty_config();
    for command in [Command::Woj, Command::Wsb, Command::Tweet(String::from("anyone"))] {
        match fetch_request(&command, &config) {
            Err(FetchError::Configuration) => {}
            other => panic!("expected a configuration error, got {:?}", other.is_ok()),
        }
    }
}

#[test]
fn fetch_request_missing_api_key_is_configuration_error() {
    let config = Config {
        timeline_bearer: Some(String::from("bearer-token")),
        quote_api_key: None,
    };
    for command in [Command::Tsla, Command::Gme, Command::Quote(String::from("AMC"))] {
        match fetch_request(&command, &config) {
            Err(FetchError::Configuration) => {}
            other => panic!("expected a configuration error, got {:?}", other.is_ok()),
        }
    }
}

#[test]
fn fetch_request_supplies_handle_and_bearer() {
    let r = fetch_request(&Command::Tweet(String::from("wsbmod")), &full_config());
    match r {
        Ok(Some(FetchRequest::Timeline { handle, bearer })) => {
            assert_eq!(handle, "wsbmod");
            assert_eq!(bearer, "bearer-token");
        }
        _ => panic!("expected a timeline request"),
    }
}

#[test]
fn fetch_request_fixed_handles_are_preserved() {
    let config = full_config();
    match fetch_request(&Command::Woj, &config) {
        Ok(Some(FetchRequest::Timeline { handle, .. })) => assert_eq!(handle, "wojespn"),
        _ => panic!("expected a timeline request"),
    }
    match fetch_request(&Command::Wsb, &config) {
        Ok(Some(FetchRequest::Timeline { handle, .. })) => assert_eq!(handle, "wsbmod"),
        _ => panic!("expected a timeline request"),
    }
}

#[test]
fn fetch_request_supplies_ticker_and_key() {
    let config = full_config();
    match fetch_request(&Command::Quote(String::from("AMC")), &config) {
        Ok(Some(FetchRequest::Quotes { ticker, api_key })) => {
            assert_eq!(ticker, "AMC");
            assert_eq!(api_key, "api-key");
        }
        _ => panic!("expected a quote request"),
    }
    match fetch_request(&Command::Tsla, &config) {
        Ok(Some(FetchRequest::Quotes { ticker, .. })) => assert_eq!(ticker, "TSLA"),
        _ => panic!("expected a quote request"),
    }
    match fetch_request(&Command::Gme, &config) {
        Ok(Some(FetchRequest::Quotes { ticker, .. })) => assert_eq!(ticker, "GME"),
        _ => panic!("expected a quote request"),
    }
}
