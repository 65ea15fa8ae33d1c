//! The record of one tick and its line-protocol form.

use vstd::prelude::*;
use crate::decimal::{decimal, decimal_nat_reads_back, render_i64};

verus! {

/// The name under which every record gives its source.
pub const SOURCE: &'static str = "Coinbase";

/// The symbol of the asset that is quoted.
pub const ASSET: &'static str = "BTC";

/// The three prices of one asset in one currency at one instant.
///
/// An amount is held as the text that the output line shows for it: the
/// decimal form of the quoted amount in single precision.
#[derive(Clone, Debug)]
pub struct PriceData {
    pub source: String,
    pub asset: String,
    pub currency: String,
    pub buy: String,
    pub sell: String,
    pub spot: String,
    /// Seconds since 1970-01-01 00:00:00 UTC at which the record was made.
    pub timestamp: i64,
}

/// What a `PriceData` holds, as mathematical values.
pub struct PriceDataView {
    pub source: Seq<char>,
    pub asset: Seq<char>,
    pub currency: Seq<char>,
    pub buy: Seq<char>,
    pub sell: Seq<char>,
    pub spot: Seq<char>,
    pub timestamp: int,
}

impl View for PriceData {
    type V = PriceDataView;

    open spec fn view(&self) -> PriceDataView {
        PriceDataView {
            source: self.source@,
            asset: self.asset@,
            currency: self.currency@,
            buy: self.buy@,
            sell: self.sell@,
            spot: self.spot@,
            timestamp: self.timestamp as int,
        }
    }
}

/// Whether a text is free of spaces, the character that parts a line.
pub open spec fn has_no_space(text: Seq<char>) -> bool {
    forall|i: int| 0 <= i < text.len() ==> text[i] != ' '
}

impl PriceDataView {
    /// The first part of the line: the asset as the measurement, then source
    /// and currency as tags.
    pub open spec fn tags(self) -> Seq<char> {
        self.asset + ",source="@ + self.source + ",currency="@ + self.currency
    }

    /// The second part of the line: the three amounts as fields, in the
    /// order buy, sell, spot.
    pub open spec fn fields(self) -> Seq<char> {
        "buy="@ + self.buy + ",sell="@ + self.sell + ",spot="@ + self.spot
    }

    /// The record as one line: tags, fields and the timestamp in seconds,
    /// parted by single spaces. No value is escaped.
    pub open spec fn line(self) -> Seq<char> {
        self.tags() + " "@ + self.fields() + " "@ + decimal(self.timestamp)
    }
}

impl PriceData {
    /// Renders the record as its line.
    pub fn to_line(&self) -> (line: String)
        ensures
            line@ == self@.line(),
    {
        let mut line = self.asset.clone();
        line.append(",source=");
        line.append(self.source.as_str());
        line.append(",currency=");
        line.append(self.currency.as_str());
        let mut fields = String::from_str("buy=");
        fields.append(self.buy.as_str());
        fields.append(",sell=");
        fields.append(self.sell.as_str());
        fields.append(",spot=");
        fields.append(self.spot.as_str());
        let seconds = render_i64(self.timestamp);
        line.append(" ");
        line.append(fields.as_str());
        line.append(" ");
        line.append(seconds.as_str());
        line
    }
}

/// A number in decimal holds no space.
pub proof fn decimal_has_no_space(n: int)
    ensures
        has_no_space(decimal(n)),
{
    // a sign, then digits only
    decimal_nat_reads_back((if n < 0 { -n } else { n }) as nat);
}

/// Where no text of the record holds a space, the line holds exactly the two
/// spaces that part it: neither the tags nor the fields nor the timestamp
/// hold one.
pub proof fn line_has_three_parts(record: PriceDataView)
    requires
        has_no_space(record.asset),
        has_no_space(record.source),
        has_no_space(record.currency),
        has_no_space(record.buy),
        has_no_space(record.sell),
        has_no_space(record.spot),
    ensures
        record.line() == record.tags() + seq![' '] + record.fields() + seq![' '] + decimal(
            record.timestamp,
        ),
        has_no_space(record.tags()),
        has_no_space(record.fields()),
        has_no_space(decimal(record.timestamp)),
{
    reveal_strlit(" ");
    reveal_strlit(",source=");
    reveal_strlit(",currency=");
    reveal_strlit("buy=");
    reveal_strlit(",sell=");
    reveal_strlit(",spot=");
    decimal_has_no_space(record.timestamp);
}

} // verus!
