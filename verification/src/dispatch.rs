//! The dispatcher: which upstream request a command calls for, and how the
//! outcome of that request becomes the single reply the user sees.

use vstd::prelude::*;

use crate::commands::{help_text, help_text_spec, Command};
use crate::config::Config;
use crate::errors::{fallback_link, fallback_text, FetchError};

verus! {

/// The upstream request a command calls for, with everything the request
/// needs carried along: the handle or ticker, and the credential it is
/// authenticated with.
pub enum FetchRequest {
    /// The fixed price-index endpoint.
    PriceIndex,
    /// The nested price-list endpoint for the fixed Doge symbol.
    DogePriceList,
    /// The flat currency-map endpoint for the fixed Ethereum symbol.
    EthCurrencyMap,
    /// The latest-item timeline lookup for a handle, with its bearer token.
    Timeline { handle: String, bearer: String },
    /// The quote lookup for a ticker symbol, with its API key.
    Quotes { ticker: String, api_key: String },
}

/// What planning a timeline fetch must yield: the request for this handle
/// carrying the configured bearer token, or the configuration error when
/// the token is absent.
pub open spec fn timeline_plan(
    config: Config,
    handle: Seq<char>,
    r: Result<Option<FetchRequest>, FetchError>,
) -> bool {
    match config.timeline_bearer {
        Some(b) => r matches Ok(Some(FetchRequest::Timeline { handle: h, bearer })) && h@ == handle
            && bearer@ == b@,
        None => r == Err::<Option<FetchRequest>, FetchError>(FetchError::Configuration),
    }
}

/// What planning a quote fetch must yield: the request for this ticker
/// carrying the configured API key, or the configuration error when the
/// key is absent.
pub open spec fn quotes_plan(
    config: Config,
    ticker: Seq<char>,
    r: Result<Option<FetchRequest>, FetchError>,
) -> bool {
    match config.quote_api_key {
        Some(k) => r matches Ok(Some(FetchRequest::Quotes { ticker: t, api_key })) && t@ == ticker
            && api_key@ == k@,
        None => r == Err::<Option<FetchRequest>, FetchError>(FetchError::Configuration),
    }
}

/// Plan the upstream request for a command. `Help` needs none; the fixed
/// commands get their fixed handle or ticker; the two argument-carrying
/// commands pass their argument through unchanged. A command that needs a
/// credential fails here, with the configuration error, when the
/// credential was never supplied.
pub fn fetch_request(command: &Command, config: &Config) -> (r: Result<
    Option<FetchRequest>,
    FetchError,
>)
    ensures
        command is Help ==> r == Ok::<Option<FetchRequest>, FetchError>(None),
        command is Btc ==> (r matches Ok(Some(q)) && q is PriceIndex),
        command is Doge ==> (r matches Ok(Some(q)) && q is DogePriceList),
        command is Eth ==> (r matches Ok(Some(q)) && q is EthCurrencyMap),
        command is Woj ==> timeline_plan(*config, "wojespn"@, r),
        command is Wsb ==> timeline_plan(*config, "wsbmod"@, r),
        command matches Command::Tweet(h) ==> timeline_plan(*config, h@, r),
        command is Tsla ==> quotes_plan(*config, "TSLA"@, r),
        command is Gme ==> quotes_plan(*config, "GME"@, r),
        command matches Command::Quote(t) ==> quotes_plan(*config, t@, r),
{
    match command {
        Command::Help => Ok(None),
        Command::Btc => Ok(Some(FetchRequest::PriceIndex)),
        Command::Doge => Ok(Some(FetchRequest::DogePriceList)),
        Command::Eth => Ok(Some(FetchRequest::EthCurrencyMap)),
        Command::Woj => match crate::config::timeline_credential(config) {
            Ok(bearer) => Ok(
                Some(FetchRequest::Timeline { handle: String::from_str("wojespn"), bearer }),
            ),
            Err(e) => Err(e),
        },
        Command::Wsb => match crate::config::timeline_credential(config) {
            Ok(bearer) => Ok(
                Some(FetchRequest::Timeline { handle: String::from_str("wsbmod"), bearer }),
            ),
            Err(e) => Err(e),
        },
        Command::Tweet(h) => match crate::config::timeline_credential(config) {
            Ok(bearer) => Ok(Some(FetchRequest::Timeline { handle: h.clone(), bearer })),
            Err(e) => Err(e),
        },
        Command::Tsla => match crate::config::quote_credential(config) {
            Ok(api_key) => Ok(
                Some(FetchRequest::Quotes { ticker: String::from_str("TSLA"), api_key }),
            ),
            Err(e) => Err(e),
        },
        Command::Gme => match crate::config::quote_credential(config) {
            Ok(api_key) => Ok(
                Some(FetchRequest::Quotes { ticker: String::from_str("GME"), api_key }),
            ),
            Err(e) => Err(e),
        },
        Command::Quote(t) => match crate::config::quote_credential(config) {
            Ok(api_key) => Ok(Some(FetchRequest::Quotes { ticker: t.clone(), api_key })),
            Err(e) => Err(e),
        },
    }
}

/// The one reply a command yields, given how its fetch went: the generated
/// listing for `Help`, the fetched text on success, and the fixed fallback
/// link on any fetch error.
pub open spec fn reply_text(command: Command, fetched: Result<String, FetchError>) -> Seq<char> {
    match command {
        Command::Help => help_text_spec(),
        _ => match fetched {
            Ok(s) => s@,
            Err(_) => fallback_text(),
        },
    }
}

/// The dispatcher's error policy for one fetch outcome: the fetched text
/// unchanged on success, the fixed fallback link on any error.
pub fn reply_or_fallback(fetched: Result<String, FetchError>) -> (r: String)
    ensures
        fetched matches Ok(s) ==> r@ == s@,
        fetched is Err ==> r@ == fallback_text(),
{
    match fetched {
        Ok(s) => s,
        Err(_) => fallback_link(),
    }
}

/// Turn a command and its fetch outcome into the single reply message.
/// Every command yields exactly one reply; no fetch error ever escapes to
/// the transport layer. For `Help` the outcome is ignored -- its listing
/// needs no fetch.
pub fn dispatch(command: &Command, fetched: Result<String, FetchError>) -> (r: String)
    ensures
        r@ == reply_text(*command, fetched),
{
    match command {
        Command::Help => help_text(),
        Command::Btc => reply_or_fallback(fetched),
        Command::Doge => reply_or_fallback(fetched),
        Command::Eth => reply_or_fallback(fetched),
        Command::Woj => reply_or_fallback(fetched),
        Command::Wsb => reply_or_fallback(fetched),
        Command::Tweet(_) => reply_or_fallback(fetched),
        Command::Tsla => reply_or_fallback(fetched),
        Command::Gme => reply_or_fallback(fetched),
        Command::Quote(_) => reply_or_fallback(fetched),
    }
}

/// Every command gets a reply with something in it: so long as a successful
/// fetch never hands back the empty string, the dispatched reply is never
/// empty -- an error still yields the non-empty fallback link, and the
/// generated help listing always holds at least its header.
pub proof fn lemma_reply_nonempty(command: Command, fetched: Result<String, FetchError>)
    requires
        fetched matches Ok(s) ==> s@.len() > 0,
    ensures
        reply_text(command, fetched).len() > 0,
{
    crate::errors::lemma_fallback_nonempty();
    assert(help_text_spec().len() > 0) by {
        reveal_strlit("These commands are supported:");
    }
}

/// A failed fetch is answered with exactly the fixed fallback link, byte
/// for byte, whatever the command and whatever kind of error the fetch
/// returned.
pub proof fn lemma_error_reply_is_fallback(command: Command, e: FetchError)
    ensures
        !(command is Help) ==> reply_text(command, Err(e)) == fallback_text(),
{
}

} // verus!
