use command_bot::envelopes::{
    BpiSection, CurrencyMapEnvelope, PriceData, PriceEntry, PriceIndexEnvelope,
    PriceListEnvelope, QuoteEnvelope, QuoteItem, QuoteResponse, TweetRecord, UsdRate,
};
use command_bot::errors::{classify_status, u16_decimal, FetchError};
use command_bot::fetchers::{
    currency_map_reply, price_index_reply, price_list_reply, quote_reply, timeline_reply,
    tweet_permalink,
};

const FALLBACK: &str = "https://bit.ly/2Yzl1GH";

#[test]
fn price_index_reply_returns_rate_verbatim() {
    let envelope = PriceIndexEnvelope {
        bpi: BpiSection { usd: UsdRate { rate: String::from("56,244.2088") } },
    };
    assert_eq!(price_index_reply(&envelope), "56,244.2088");
}

#[test]
fn price_list_reply_returns_first_price() {
    let envelope = PriceListEnvelope {
        data: PriceData {
            prices: vec![
                PriceEntry { price: String::from("0.05") },
                PriceEntry { price: String::from("0.06") },
            ],
        },
    };
    assert_eq!(price_list_reply(&envelope), "0.05");
}

#[test]
fn price_list_reply_empty_falls_back_without_error() {
    let envelope = PriceListEnvelope { data: PriceData { prices: vec![] } };
    // The routine itself substitutes the fallback link; an empty list never
    // becomes an error at this boundary.
    assert_eq!(price_list_reply(&envelope), FALLBACK);
}

#[test]
fn currency_map_reply_returns_price() {
    let envelope = CurrencyMapEnvelope { usd: Some(String::from("1821.67")) };
    assert_eq!(currency_map_reply(&envelope), "1821.67");
}

#[test]
fn currency_map_reply_empty_falls_back_without_error() {
    let envelope = CurrencyMapEnvelope { usd: None };
    assert_eq!(currency_map_reply(&envelope), FALLBACK);
}

#[test]
fn tweet_permalink_round_trip() {
    assert_eq!(
        tweet_permalink("wojespn", "123456789"),
        "https://twitter.com/wojespn/status/123456789"
    );
}

#[test]
fn timeline_reply_links_latest_item() {
    let tweets = vec![
        TweetRecord { id: String::from("1360327713081421824") },
        TweetRecord { id: String::from("1360000000000000000") },
    ];
    assert_eq!(
        timeline_reply("wsbmod", &tweets),
        "https://twitter.com/wsbmod/status/1360327713081421824"
    );
}

#[test]
fn timeline_reply_empty_falls_back_without_error() {
    let tweets: Vec<TweetRecord> = vec![];
    assert_eq!(timeline_reply("wojespn", &tweets), FALLBACK);
}

#[test]
fn quote_reply_formats_summary() {
    let envelope = QuoteEnvelope {
        quote_response: QuoteResponse {
            result: vec![QuoteItem {
                bid: String::from("51.66"),
                ask: String::from("51.74"),
                market_cap: String::from("3625722112"),
            }],
        },
    };
    assert_eq!(
        quote_reply("GME", &envelope),
        Ok(String::from("GME 51.66 51.74 3625722112"))
    );
}

#[test]
fn quote_reply_empty_list_is_error_not_index_fault() {
    let envelope = QuoteEnvelope { quote_response: QuoteResponse { result: vec![] } };
    assert_eq!(quote_reply("GME", &envelope), Err(FetchError::MalformedResponse));
}

#[test]
fn classify_status_accepts_success_range() {
    assert!(classify_status(200).is_ok());
    assert!(classify_status(204).is_ok());
    assert!(classify_status(299).is_ok());
}

#[test]
fn classify_status_rejects_everything_else() {
    assert_eq!(classify_status(199), Err(FetchError::UpstreamStatus(199)));
    assert_eq!(classify_status(300), Err(FetchError::UpstreamStatus(300)));
    assert_eq!(classify_status(404), Err(FetchError::UpstreamStatus(404)));
    assert_eq!(classify_status(500), Err(FetchError::UpstreamStatus(500)));
}

#[test]
fn decimal_text_is_exact() {
    assert_eq!(u16_decimal(0), "0");
    assert_eq!(u16_decimal(7), "7");
    assert_eq!(u16_decimal(404), "404");
    assert_eq!(u16_decimal(65535), "65535");
}

#[test]
fn error_messages_name_the_kind() {
    assert_eq!(FetchError::Configuration.message(), "missing required credential");
    assert_eq!(FetchError::Transport.message(), "could not reach the upstream service");
    assert_eq!(
        FetchError::UpstreamStatus(502).message(),
        "upstream answered with status 502"
    );
    assert_eq!(
        FetchError::MalformedResponse.message(),
        "upstream response had an unexpected shape"
    );
}
