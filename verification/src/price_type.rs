//! The three kinds of quote.

use vstd::prelude::*;

verus! {

/// Which price of the asset a quote gives.
#[derive(Clone, Copy, Debug, PartialEq, Eq, Structural)]
pub enum PriceType {
    Buy,
    Sell,
    Spot,
}

impl PriceType {
    /// The lower-case word that stands for this price type, both as the last
    /// path segment of the quote URL and as the field name in the output line.
    pub open spec fn word(self) -> Seq<char> {
        match self {
            PriceType::Buy => "buy"@,
            PriceType::Sell => "sell"@,
            PriceType::Spot => "spot"@,
        }
    }

    pub fn as_str(&self) -> (s: &'static str)
        ensures
            s@ == self.word(),
    {
        match self {
            PriceType::Buy => "buy",
            PriceType::Sell => "sell",
            PriceType::Spot => "spot",
        }
    }

    /// The word as an owned string.
    pub fn to_string(&self) -> (s: String)
        ensures
            s@ == self.word(),
    {
        String::from_str(self.as_str())
    }
}

/// Spelled out, letter by letter, what each word is.
pub proof fn words_spelled(t: PriceType)
    ensures
        t == PriceType::Buy ==> t.word() =~= seq!['b', 'u', 'y'],
        t == PriceType::Sell ==> t.word() =~= seq!['s', 'e', 'l', 'l'],
        t == PriceType::Spot ==> t.word() =~= seq!['s', 'p', 'o', 't'],
{
    reveal_strlit("buy");
    reveal_strlit("sell");
    reveal_strlit("spot");
}

/// Distinct price types have distinct words, so neither a URL nor a field
/// name can be mistaken for that of another type.
pub proof fn word_is_injective(a: PriceType, b: PriceType)
    requires
        a.word() == b.word(),
    ensures
        a == b,
{
    // any two of the words differ in length or in their second letter
    words_spelled(a);
    words_spelled(b);
}

/// Every word is made of lower-case ASCII letters only.
pub proof fn word_is_lower_case(t: PriceType)
    ensures
        forall|i: int| 0 <= i < t.word().len() ==> 'a' <= #[trigger] t.word()[i] <= 'z',
{
    words_spelled(t);
}

} // verus!
