//! The fixed set of sources a price figure can come from, and their wire tags.

use vstd::prelude::*;

verus! {

/// Source of a price, volume, trend or change figure: two first-party
/// providers, one aggregator, or unknown. On the wire each serializes as a
/// fixed lowercase tag.
#[derive(Clone, Copy, Debug, PartialEq, Eq, Structural)]
pub enum Provider {
    Binance,
    Coingecko,
    Coinpaprika,
    Unknown,
}

impl Provider {
    /// The lowercase tag each provider carries on the wire.
    pub open spec fn spec_tag(self) -> Seq<char> {
        match self {
            Provider::Binance => "binance"@,
            Provider::Coingecko => "coingecko"@,
            Provider::Coinpaprika => "coinpaprika"@,
            Provider::Unknown => "unknown"@,
        }
    }

    /// The provider denoted by a wire tag, if any.
    pub open spec fn spec_from_tag(tag: Seq<char>) -> Option<Provider> {
        if tag == "binance"@ {
            Some(Provider::Binance)
        } else if tag == "coingecko"@ {
            Some(Provider::Coingecko)
        } else if tag == "coinpaprika"@ {
            Some(Provider::Coinpaprika)
        } else if tag == "unknown"@ {
            Some(Provider::Unknown)
        } else {
            None
        }
    }

    /// Wire tag of this provider.
    pub fn tag(&self) -> (r: &'static str)
        ensures
            r@ == self.spec_tag(),
    {
        match self {
            Provider::Binance => "binance",
            Provider::Coingecko => "coingecko",
            Provider::Coinpaprika => "coinpaprika",
            Provider::Unknown => "unknown",
        }
    }

    /// Parse a wire tag back into a provider; every string other than the
    /// four fixed tags is rejected.
    pub fn from_tag(tag: &String) -> (r: Option<Provider>)
        ensures
            r == Provider::spec_from_tag(tag@),
    {
        if *tag == "binance".to_owned() {
            Some(Provider::Binance)
        } else if *tag == "coingecko".to_owned() {
            Some(Provider::Coingecko)
        } else if *tag == "coinpaprika".to_owned() {
            Some(Provider::Coinpaprika)
        } else if *tag == "unknown".to_owned() {
            Some(Provider::Unknown)
        } else {
            None
        }
    }
}

/// Tags are faithful: serializing a provider and parsing the tag back yields
/// the same provider, for every provider.
pub proof fn lemma_tag_round_trip(p: Provider)
    ensures
        Provider::spec_from_tag(p.spec_tag()) == Some(p),
{
    reveal_strlit("binance");
    reveal_strlit("coingecko");
    reveal_strlit("coinpaprika");
    reveal_strlit("unknown");
    assert("binance"@.len() == 7);
    assert("coingecko"@.len() == 9);
    assert("coinpaprika"@.len() == 11);
    assert("unknown"@.len() == 7);
    assert("binance"@[0] == 'b');
    assert("unknown"@[0] == 'u');
}

} // verus!
