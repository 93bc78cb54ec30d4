use crate::amount::{pow10, Amount, DecimalAmount};
use vstd::arithmetic::mul::lemma_mul_inequality;
use vstd::arithmetic::power::lemma_pow_positive;
use crate::error::CoreError;
use vstd::prelude::*;

verus! {

/// One registered asset: its upper-case symbol and its scale, the number of
/// fractional decimal digits of its smallest unit.
#[derive(Clone, Debug)]
pub struct AssetEntry {
    pub symbol: String,
    pub scale: u32,
}

/// An immutable table from asset symbol to scale. It is handed to the
/// converters, so that a new asset needs no change to the calculations.
#[derive(Clone, Debug)]
pub struct AssetRegistry {
    pub entries: Vec<AssetEntry>,
}

/// The scale of `symbol` in `entries`: the first entry with that symbol wins.
pub open spec fn scale_in(entries: Seq<AssetEntry>, symbol: Seq<char>) -> Option<u32>
    decreases entries.len(),
{
    if entries.len() == 0 {
        None
    } else if entries[0].symbol@ == symbol {
        Some(entries[0].scale)
    } else {
        scale_in(entries.drop_first(), symbol)
    }
}

/// What converting `raw` units of `symbol` gives: the same integer read at the
/// asset's scale.
pub open spec fn decimal_of(entries: Seq<AssetEntry>, raw: Amount, symbol: Seq<char>) -> Result<
    DecimalAmount,
    CoreError,
> {
    match scale_in(entries, symbol) {
        Some(s) => Ok(DecimalAmount { mantissa: raw, scale: s }),
        None => Err(CoreError::UnknownAsset),
    }
}

impl AssetRegistry {
    pub open spec fn spec_scale_of(&self, symbol: Seq<char>) -> Option<u32> {
        scale_in(self.entries@, symbol)
    }

    /// `scale(base) - scale(quote)`, or `UnknownAsset` where either is missing.
    pub open spec fn spec_scale_difference(&self, base: Seq<char>, quote: Seq<char>) -> Result<
        i64,
        CoreError,
    > {
        match (self.spec_scale_of(base), self.spec_scale_of(quote)) {
            (Some(b), Some(q)) => Ok((b as int - q as int) as i64),
            _ => Err(CoreError::UnknownAsset),
        }
    }

    /// The registry of the assets the node trades: USDC 6, ETH 18, BTC 8,
    /// DOT 10 and FLIP 18.
    pub fn standard() -> (r: AssetRegistry)
        ensures
            r.entries@.len() == 5,
            r.entries@[0].symbol@ == "USDC"@ && r.entries@[0].scale == 6,
            r.entries@[1].symbol@ == "ETH"@ && r.entries@[1].scale == 18,
            r.entries@[2].symbol@ == "BTC"@ && r.entries@[2].scale == 8,
            r.entries@[3].symbol@ == "DOT"@ && r.entries@[3].scale == 10,
            r.entries@[4].symbol@ == "FLIP"@ && r.entries@[4].scale == 18,
    {
        let mut entries: Vec<AssetEntry> = Vec::new();
        entries.push(AssetEntry { symbol: String::from_str("USDC"), scale: 6 });
        entries.push(AssetEntry { symbol: String::from_str("ETH"), scale: 18 });
        entries.push(AssetEntry { symbol: String::from_str("BTC"), scale: 8 });
        entries.push(AssetEntry { symbol: String::from_str("DOT"), scale: 10 });
        entries.push(AssetEntry { symbol: String::from_str("FLIP"), scale: 18 });
        AssetRegistry { entries }
    }

    /// The scale of `symbol`; symbols are compared exactly, case included.
    pub fn scale_of(&self, symbol: &str) -> (r: Result<u32, CoreError>)
        ensures
            r == (match self.spec_scale_of(symbol@) {
                Some(s) => Ok::<u32, CoreError>(s),
                None => Err(CoreError::UnknownAsset),
            }),
    {
        let wanted = String::from_str(symbol);
        let mut i: usize = 0;
        assert(self.entries@.subrange(0, self.entries@.len() as int) =~= self.entries@);
        while i < self.entries.len()
            invariant
                0 <= i <= self.entries@.len(),
                wanted@ == symbol@,
                scale_in(self.entries@.subrange(i as int, self.entries@.len() as int), symbol@)
                    == self.spec_scale_of(symbol@),
            decreases self.entries@.len() - i,
        {
            let ghost rest = self.entries@.subrange(i as int, self.entries@.len() as int);
            assert(rest.drop_first() =~= self.entries@.subrange(
                i + 1,
                self.entries@.len() as int,
            ));
            if self.entries[i].symbol == wanted {
                return Ok(self.entries[i].scale);
            }
            i = i + 1;
        }
        Err(CoreError::UnknownAsset)
    }

    /// The signed power of ten by which a price quoted in `quote` units per
    /// `base` unit is scaled: `scale(base) - scale(quote)`.
    pub fn scale_difference(&self, base: &str, quote: &str) -> (r: Result<i64, CoreError>)
        ensures
            r == self.spec_scale_difference(base@, quote@),
    {
        let b = self.scale_of(base)?;
        let q = self.scale_of(quote)?;
        Ok(b as i64 - q as i64)
    }
}

/// Reads `amount` at the scale of `asset`: the result equals
/// `amount / 10^scale` exactly, at any size of `amount`.
pub fn asset_in_amount(amount: &Amount, asset: &str, registry: &AssetRegistry) -> (r: Result<
    DecimalAmount,
    CoreError,
>)
    ensures
        r == decimal_of(registry.entries@, *amount, asset@),
{
    let scale = registry.scale_of(asset)?;
    Ok(DecimalAmount { mantissa: *amount, scale })
}

/// For a known asset, converting `k * 10^scale` raw units gives exactly the
/// whole number `k`.
pub proof fn lemma_whole_amount_exact(registry: AssetRegistry, asset: Seq<char>, raw: Amount, k: nat)
    requires
        registry.spec_scale_of(asset) is Some,
        raw@ == k * pow10(registry.spec_scale_of(asset).unwrap() as nat),
    ensures
        decimal_of(registry.entries@, raw, asset) is Ok,
        decimal_of(registry.entries@, raw, asset).unwrap().equals_whole(k as int),
{
}

/// For a known asset, conversion keeps order: more raw units never give a
/// smaller decimal.
pub proof fn lemma_conversion_monotonic(registry: AssetRegistry, asset: Seq<char>, a: Amount, b: Amount)
    requires
        registry.spec_scale_of(asset) is Some,
        a@ <= b@,
    ensures
        decimal_of(registry.entries@, a, asset) is Ok,
        decimal_of(registry.entries@, b, asset) is Ok,
        decimal_of(registry.entries@, a, asset).unwrap().le(
            decimal_of(registry.entries@, b, asset).unwrap(),
        ),
{
    let s = registry.spec_scale_of(asset).unwrap() as nat;
    lemma_pow_positive(10, s);
    lemma_mul_inequality(a@ as int, b@ as int, pow10(s));
}

/// An asset quoted against itself needs no rescaling: the scale difference of
/// a known asset with itself is zero.
pub proof fn lemma_same_asset_difference_zero(registry: AssetRegistry, asset: Seq<char>)
    requires
        registry.spec_scale_of(asset) is Some,
    ensures
        registry.spec_scale_difference(asset, asset) == Ok::<i64, CoreError>(0),
{
}

} // verus!
