//! Joining the three quotes of one tick into one record, or into none.

use vstd::prelude::*;
use crate::clock::read_clock;
use crate::error::PollError;
use crate::quote::{Quote, QuoteView};
use crate::record::{PriceData, PriceDataView, ASSET, SOURCE};

verus! {

/// Why the three quotes give no record, if they give none.
///
/// A request that failed comes before an amount that is not a number, and
/// among failures of one sort the order is buy, sell, spot.
pub open spec fn joined_failure(buy: QuoteView, sell: QuoteView, spot: QuoteView) -> Option<
    PollError,
> {
    if buy.failed_in_fetch() {
        buy.failure()
    } else if sell.failed_in_fetch() {
        sell.failure()
    } else if spot.failed_in_fetch() {
        spot.failure()
    } else if buy is NotNumeric {
        buy.failure()
    } else if sell is NotNumeric {
        sell.failure()
    } else {
        spot.failure()
    }
}

/// The record of a tick, or the failure of the tick: all three quotes or
/// nothing.
pub open spec fn aggregate_spec(
    currency: Seq<char>,
    buy: QuoteView,
    sell: QuoteView,
    spot: QuoteView,
    timestamp: int,
) -> Result<PriceDataView, PollError> {
    match joined_failure(buy, sell, spot) {
        Some(kind) => Err(kind),
        None => Ok(
            PriceDataView {
                source: SOURCE@,
                asset: ASSET@,
                currency: currency,
                buy: buy->Amount_0,
                sell: sell->Amount_0,
                spot: spot->Amount_0,
                timestamp: timestamp,
            },
        ),
    }
}

/// What the outcome of a tick holds, as mathematical values.
pub open spec fn outcome_view(r: Result<PriceData, PollError>) -> Result<PriceDataView, PollError> {
    match r {
        Ok(record) => Ok(record@),
        Err(kind) => Err(kind),
    }
}

/// Joins the three quotes of a tick, made at `timestamp`, into its record.
pub fn aggregate(currency: &str, buy: Quote, sell: Quote, spot: Quote, timestamp: i64) -> (r:
    Result<PriceData, PollError>)
    ensures
        outcome_view(r) == aggregate_spec(currency@, buy@, sell@, spot@, timestamp as int),
{
    match (buy, sell, spot) {
        (Quote::Amount(buy_text), Quote::Amount(sell_text), Quote::Amount(spot_text)) => Ok(
            PriceData {
                source: String::from_str(SOURCE),
                asset: String::from_str(ASSET),
                currency: String::from_str(currency),
                buy: buy_text,
                sell: sell_text,
                spot: spot_text,
                timestamp,
            },
        ),
        (buy, sell, spot) => {
            let kind = match (buy, sell, spot) {
                (Quote::Unreachable, _, _) => PollError::Fetch,
                (Quote::Malformed, _, _) => PollError::Parse,
                (_, Quote::Unreachable, _) => PollError::Fetch,
                (_, Quote::Malformed, _) => PollError::Parse,
                (_, _, Quote::Unreachable) => PollError::Fetch,
                _ => PollError::Parse,
            };
            Err(kind)
        },
    }
}

/// Joins the three quotes of a tick and stamps the record with the clock as
/// it stands at this call, after all three quotes have come in. The outcome
/// is that of `aggregate` for the second that the clock showed: whether
/// there is a record, and which failure there is if there is none, does not
/// depend on the clock.
pub fn aggregate_now(currency: &str, buy: Quote, sell: Quote, spot: Quote) -> (r: Result<
    PriceData,
    PollError,
>)
    ensures
        exists|timestamp: i64| #[trigger]
            aggregate_spec(currency@, buy@, sell@, spot@, timestamp as int) == outcome_view(r),
        r is Ok <==> buy@ is Amount && sell@ is Amount && spot@ is Amount,
        r matches Err(kind) ==> joined_failure(buy@, sell@, spot@) == Some(kind),
        r matches Ok(record) ==> aggregate_spec(
            currency@,
            buy@,
            sell@,
            spot@,
            record@.timestamp,
        ) == Ok::<PriceDataView, PollError>(record@),
{
    let now = read_clock();
    aggregate(currency, buy, sell, spot, now.unix_seconds)
}

/// Three amounts give exactly the record that holds them, under the fixed
/// source and asset, with the timestamp that was handed in.
pub proof fn three_amounts_give_their_record(
    currency: Seq<char>,
    buy: Seq<char>,
    sell: Seq<char>,
    spot: Seq<char>,
    timestamp: int,
)
    ensures
        aggregate_spec(
            currency,
            QuoteView::Amount(buy),
            QuoteView::Amount(sell),
            QuoteView::Amount(spot),
            timestamp,
        ) == Ok::<PriceDataView, PollError>(
            PriceDataView {
                source: SOURCE@,
                asset: ASSET@,
                currency: currency,
                buy: buy,
                sell: sell,
                spot: spot,
                timestamp: timestamp,
            },
        ),
{
}

/// A tick gives a record if and only if none of its three quotes failed. If
/// one failed, the tick fails with the kind of one of the failed quotes; if
/// only one failed, with the kind of that one.
pub proof fn any_failure_gives_no_record(
    currency: Seq<char>,
    buy: QuoteView,
    sell: QuoteView,
    spot: QuoteView,
    timestamp: int,
)
    ensures
        aggregate_spec(currency, buy, sell, spot, timestamp) is Ok <==> buy is Amount
            && sell is Amount && spot is Amount,
        aggregate_spec(currency, buy, sell, spot, timestamp) matches Err(kind) ==> Some(kind)
            == buy.failure() || Some(kind) == sell.failure() || Some(kind) == spot.failure(),
        !(buy is Amount) && sell is Amount && spot is Amount ==> aggregate_spec(
            currency,
            buy,
            sell,
            spot,
            timestamp,
        ) == Err::<PriceDataView, PollError>(buy.failure()->Some_0),
        buy is Amount && !(sell is Amount) && spot is Amount ==> aggregate_spec(
            currency,
            buy,
            sell,
            spot,
            timestamp,
        ) == Err::<PriceDataView, PollError>(sell.failure()->Some_0),
        buy is Amount && sell is Amount && !(spot is Amount) ==> aggregate_spec(
            currency,
            buy,
            sell,
            spot,
            timestamp,
        ) == Err::<PriceDataView, PollError>(spot.failure()->Some_0),
{
}

} // verus!
