//! The response envelopes of the upstream services, modelled as plain
//! values: each type holds exactly the fields the fetch routines project
//! out. Decoding the wire JSON into these shapes happens outside the
//! library; numeric upstream fields arrive here as their decimal text.

use vstd::prelude::*;

verus! {

/// The currency-rate leaf of the price-index envelope.
pub struct UsdRate {
    /// The rate, verbatim as the index reports it.
    pub rate: String,
}

/// The per-currency section of the price-index envelope.
pub struct BpiSection {
    pub usd: UsdRate,
}

/// The price-index envelope: a nested shape reaching one currency-rate
/// string.
pub struct PriceIndexEnvelope {
    pub bpi: BpiSection,
}

/// One entry of the nested price list.
pub struct PriceEntry {
    /// The price, as decimal text.
    pub price: String,
}

/// The data section of the price-list envelope.
pub struct PriceData {
    pub prices: Vec<PriceEntry>,
}

/// The price-list envelope: a nested list of price entries, possibly empty.
pub struct PriceListEnvelope {
    pub data: PriceData,
}

/// The flat currency-keyed price envelope. A missing entry for the dollar
/// key stands for a syntactically valid but empty result.
pub struct CurrencyMapEnvelope {
    /// The dollar price as decimal text, or `None` when the map held no
    /// dollar entry.
    pub usd: Option<String>,
}

/// One record of a social-timeline listing.
pub struct TweetRecord {
    /// The opaque identifier of the timeline item, as text.
    pub id: String,
}

/// One record of a quote listing.
pub struct QuoteItem {
    /// The bid price, as decimal text.
    pub bid: String,
    /// The ask price, as decimal text.
    pub ask: String,
    /// The market capitalization, as decimal text.
    pub market_cap: String,
}

/// The result section of the quote envelope.
pub struct QuoteResponse {
    pub result: Vec<QuoteItem>,
}

/// The quote envelope: a nested list of quote records, possibly empty.
pub struct QuoteEnvelope {
    pub quote_response: QuoteResponse,
}

} // verus!
