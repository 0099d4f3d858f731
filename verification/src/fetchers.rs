//! The formatting half of each fetch routine: given a decoded response
//! envelope, produce the display string (or the typed error) that the
//! routine returns. The network half lives outside the library; these
//! functions pin down everything that happens after the response arrives.

use vstd::prelude::*;

use crate::envelopes::{
    CurrencyMapEnvelope, PriceIndexEnvelope, PriceListEnvelope, QuoteEnvelope, QuoteItem,
    TweetRecord,
};
use crate::errors::{fallback_text, fallback_link, FetchError};

verus! {

/// The canonical permalink for a timeline item: the fixed site prefix, the
/// handle, the status segment, and the item's identifier.
pub open spec fn permalink_text(handle: Seq<char>, id: Seq<char>) -> Seq<char> {
    "https://twitter.com/"@ + handle + "/status/"@ + id
}

/// The three-field quote summary: the ticker, bid, ask and market
/// capitalization, space-joined.
pub open spec fn quote_summary_text(ticker: Seq<char>, item: QuoteItem) -> Seq<char> {
    ticker + " "@ + item.bid@ + " "@ + item.ask@ + " "@ + item.market_cap@
}

/// The price-index reply: the currency-rate string, verbatim.
pub fn price_index_reply(envelope: &PriceIndexEnvelope) -> (r: String)
    ensures
        r@ == envelope.bpi.usd.rate@,
{
    envelope.bpi.usd.rate.clone()
}

/// The price-list reply: the first listed price, or the fallback link when
/// the provider answered with an empty list. An empty list is a documented
/// normal outcome of this provider, so it is a successful reply here, not
/// an error.
pub fn price_list_reply(envelope: &PriceListEnvelope) -> (r: String)
    ensures
        envelope.data.prices@.len() > 0 ==> r@ == envelope.data.prices@[0].price@,
        envelope.data.prices@.len() == 0 ==> r@ == fallback_text(),
{
    if envelope.data.prices.len() > 0 {
        envelope.data.prices[0].price.clone()
    } else {
        fallback_link()
    }
}

/// The currency-map reply: the dollar price, or the fallback link when the
/// map held no dollar entry. As with the price list, an empty result is a
/// successful reply, not an error.
pub fn currency_map_reply(envelope: &CurrencyMapEnvelope) -> (r: String)
    ensures
        envelope.usd matches Some(p) ==> r@ == p@,
        envelope.usd is None ==> r@ == fallback_text(),
{
    match &envelope.usd {
        Some(p) => p.clone(),
        None => fallback_link(),
    }
}

/// Format the canonical permalink for one timeline item.
pub fn tweet_permalink(handle: &str, id: &str) -> (r: String)
    ensures
        r@ == permalink_text(handle@, id@),
{
    let mut s = String::from_str("https://twitter.com/");
    s.append(handle);
    s.append("/status/");
    s.append(id);
    proof {
        assert(s@ =~= permalink_text(handle@, id@));
    }
    s
}

/// The timeline reply: a permalink to the most recent item of the handle,
/// or the fallback link when the listing came back empty. An empty listing
/// is a successful reply, not an error.
pub fn timeline_reply(handle: &str, tweets: &Vec<TweetRecord>) -> (r: String)
    ensures
        tweets@.len() > 0 ==> r@ == permalink_text(handle@, tweets@[0].id@),
        tweets@.len() == 0 ==> r@ == fallback_text(),
{
    if tweets.len() > 0 {
        tweet_permalink(handle, tweets[0].id.as_str())
    } else {
        fallback_link()
    }
}

/// The quote reply: the space-joined summary of the first listed record.
/// An empty record list is a malformed response here -- a quote was asked
/// for one concrete symbol, so a listing without it is a shape violation,
/// never an index fault.
pub fn quote_reply(ticker: &str, envelope: &QuoteEnvelope) -> (r: Result<String, FetchError>)
    ensures
        envelope.quote_response.result@.len() == 0 ==> r == Err::<String, FetchError>(
            FetchError::MalformedResponse,
        ),
        envelope.quote_response.result@.len() > 0 ==> (r matches Ok(s) && s@
            == quote_summary_text(ticker@, envelope.quote_response.result@[0])),
{
    if envelope.quote_response.result.len() == 0 {
        return Err(FetchError::MalformedResponse);
    }
    let item = &envelope.quote_response.result[0];
    let mut s = String::from_str(ticker);
    s.append(" ");
    s.append(item.bid.as_str());
    s.append(" ");
    s.append(item.ask.as_str());
    s.append(" ");
    s.append(item.market_cap.as_str());
    proof {
        assert(s@ =~= quote_summary_text(ticker@, envelope.quote_response.result@[0]));
    }
    Ok(s)
}

} // verus!
