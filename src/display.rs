use crate::amount::{exact_decimal_text, Amount, DecimalAmount};
use crate::asset::{scale_in, AssetEntry, AssetRegistry};
use crate::error::CoreError;
use vstd::prelude::*;

verus! {

/// The largest mantissa the decimal renderer holds: 2^96 - 1.
pub const MAX_MANTISSA: u128 = 0xFFFF_FFFF_FFFF_FFFF_FFFF_FFFF;

/// The largest scale the decimal renderer holds.
pub const MAX_SCALE: u32 = 28;

/// Amounts are shown rounded to this many fractional digits.
pub const DISPLAY_PLACES: u32 = 4;

/// The text of `mantissa / 10^scale` rounded half to even at `dp` places.
pub uninterp spec fn rounded_decimal_text(mantissa: int, scale: int, dp: int) -> Seq<char>;

/// Relies on rust_decimal: `Decimal::from_i128_with_scale` builds the value
/// `mantissa / 10^scale` (it panics on a mantissa above 2^96 - 1 or a scale
/// above 28), `Decimal::round_dp` rounds it to `dp` places, and `Display`
/// writes it out. The text depends on the three numbers alone.
#[verifier::external_body]
fn decimal_text(mantissa: u128, scale: u32, dp: u32) -> (r: String)
    requires
        mantissa <= MAX_MANTISSA,
        scale <= MAX_SCALE,
    ensures
        r@ == rounded_decimal_text(mantissa as int, scale as int, dp as int),
{
    rust_decimal::Decimal::from_i128_with_scale(mantissa as i128, scale).round_dp(dp).to_string()
}

/// The text of `raw` units at scale `scale`, rounded to `places` fractional
/// digits where the decimal renderer holds the value, and written exactly,
/// every digit of the scale, where it does not.
pub open spec fn scaled_text(raw: Amount, scale: u32, places: u32) -> Seq<char> {
    if raw@ <= MAX_MANTISSA && scale <= MAX_SCALE {
        rounded_decimal_text(raw@ as int, scale as int, places as int)
    } else {
        exact_decimal_text(raw@, scale as nat)
    }
}

/// The text shown for `raw` units of `symbol` at `places` fractional digits;
/// only an unknown symbol fails.
pub open spec fn amount_text_at(
    entries: Seq<AssetEntry>,
    raw: Amount,
    symbol: Seq<char>,
    places: u32,
) -> Result<Seq<char>, CoreError> {
    match scale_in(entries, symbol) {
        None => Err(CoreError::UnknownAsset),
        Some(s) => Ok(scaled_text(raw, s, places)),
    }
}

/// The text shown for `raw` units of `symbol` at [`DISPLAY_PLACES`] places.
pub open spec fn amount_text(entries: Seq<AssetEntry>, raw: Amount, symbol: Seq<char>) -> Result<
    Seq<char>,
    CoreError,
> {
    amount_text_at(entries, raw, symbol, DISPLAY_PLACES)
}

/// The view of a textual result.
pub open spec fn text_of(r: Result<String, CoreError>) -> Result<Seq<char>, CoreError> {
    match r {
        Ok(t) => Ok(t@),
        Err(e) => Err(e),
    }
}

/// Renders `amount` units of `asset` as a decimal rounded to `places`
/// fractional digits. A value beyond the decimal renderer (a mantissa above
/// 2^96 - 1 or a scale above 28) is written exactly instead.
pub fn render_amount_at(amount: &Amount, asset: &str, registry: &AssetRegistry, places: u32) -> (r:
    Result<String, CoreError>)
    ensures
        text_of(r) == amount_text_at(registry.entries@, *amount, asset@, places),
{
    let scale = registry.scale_of(asset)?;
    match amount.to_u128() {
        Some(m) => {
            if m <= MAX_MANTISSA && scale <= MAX_SCALE {
                return Ok(decimal_text(m, scale, places));
            }
        },
        None => {},
    }
    Ok(DecimalAmount { mantissa: *amount, scale }.exact_text())
}

/// Renders `amount` units of `asset` at [`DISPLAY_PLACES`] places, as
/// [`render_amount_at`] does.
pub fn render_amount(amount: &Amount, asset: &str, registry: &AssetRegistry) -> (r: Result<
    String,
    CoreError,
>)
    ensures
        text_of(r) == amount_text(registry.entries@, *amount, asset@),
{
    render_amount_at(amount, asset, registry, DISPLAY_PLACES)
}

/// The marker that stands for the middle of a shortened address.
pub open spec fn ellipsis() -> Seq<char> {
    "..."@
}

/// An address shortened for display: its first four characters, an ellipsis,
/// and its last four.
pub open spec fn shortened(addr: Seq<char>) -> Seq<char> {
    addr.subrange(0, 4) + ellipsis() + addr.subrange(addr.len() - 4, addr.len() as int)
}

/// Shortens `addr` for compact display. An address of fewer than nine
/// characters cannot be shortened and gives `AddressTooShort`.
pub fn shorten_address(addr: &str) -> (r: Result<String, CoreError>)
    ensures
        addr@.len() < 9 ==> r == Err::<String, CoreError>(CoreError::AddressTooShort),
        addr@.len() >= 9 ==> r is Ok && r.unwrap()@ == shortened(addr@),
        addr@.len() >= 9 ==> r.unwrap()@.len() == 11 && r.unwrap()@.subrange(0, 4) == addr@.subrange(
            0,
            4,
        ) && r.unwrap()@.subrange(4, 7) == ellipsis() && r.unwrap()@.subrange(7, 11)
            == addr@.subrange(addr@.len() - 4, addr@.len() as int),
{
    let n = addr.unicode_len();
    if n < 9 {
        return Err(CoreError::AddressTooShort);
    }
    let head = addr.substring_char(0, 4);
    let tail = addr.substring_char(n - 4, n);
    let mut out = String::from_str(head);
    out.append("...");
    out.append(tail);
    proof {
        reveal_strlit("...");
        assert(out@ == shortened(addr@));
        assert(out@.subrange(0, 4) =~= addr@.subrange(0, 4));
        assert(out@.subrange(4, 7) =~= ellipsis());
        assert(out@.subrange(7, 11) =~= addr@.subrange(addr@.len() - 4, addr@.len() as int));
    }
    Ok(out)
}

/// The form in which an address is shown: shortened where it is long enough,
/// whole otherwise.
pub open spec fn address_display(addr: Seq<char>) -> Seq<char> {
    if addr.len() >= 9 {
        shortened(addr)
    } else {
        addr
    }
}

/// Shows `addr` shortened, or whole where it is too short to shorten.
pub fn display_address(addr: &str) -> (r: String)
    ensures
        r@ == address_display(addr@),
{
    match shorten_address(addr) {
        Ok(s) => s,
        Err(_) => String::from_str(addr),
    }
}

/// The mark shown for a yes/no flag.
pub fn bool_to_emoji(b: bool) -> (r: &'static str)
    ensures
        r@ == (if b {
            "\u{2705}"@
        } else {
            "\u{274c}"@
        }),
{
    if b {
        "\u{2705}"
    } else {
        "\u{274c}"
    }
}

/// One asset's balance within a holder's group.
#[derive(Clone, Debug)]
pub struct AssetBalance {
    pub asset: String,
    pub amount: Amount,
}

/// The balances held under one key of a two-level balance mapping, in the
/// order the source mapping gave them.
#[derive(Clone, Debug)]
pub struct HolderBalances {
    pub holder: String,
    pub balances: Vec<AssetBalance>,
}

/// The line shown for one asset balance: `ASSET: amount` and a newline.
pub open spec fn balance_line(entries: Seq<AssetEntry>, b: AssetBalance) -> Result<
    Seq<char>,
    CoreError,
> {
    match amount_text(entries, b.amount, b.asset@) {
        Ok(a) => Ok(b.asset@ + ": "@ + a + "\n"@),
        Err(e) => Err(e),
    }
}

/// The lines of a group of balances, in order; the first failing balance
/// decides the error.
pub open spec fn balance_lines(entries: Seq<AssetEntry>, bs: Seq<AssetBalance>) -> Result<
    Seq<char>,
    CoreError,
>
    decreases bs.len(),
{
    if bs.len() == 0 {
        Ok(Seq::empty())
    } else {
        match balance_lines(entries, bs.drop_last()) {
            Err(e) => Err(e),
            Ok(t) => match balance_line(entries, bs.last()) {
                Err(e) => Err(e),
                Ok(u) => Ok(t + u),
            },
        }
    }
}

/// A holder's group: the holder's line, then one line per balance.
pub open spec fn holder_text(entries: Seq<AssetEntry>, h: HolderBalances) -> Result<
    Seq<char>,
    CoreError,
> {
    match balance_lines(entries, h.balances@) {
        Ok(t) => Ok(h.holder@ + "\n"@ + t),
        Err(e) => Err(e),
    }
}

/// The whole listing: the groups in the order given.
pub open spec fn balances_text(entries: Seq<AssetEntry>, hs: Seq<HolderBalances>) -> Result<
    Seq<char>,
    CoreError,
>
    decreases hs.len(),
{
    if hs.len() == 0 {
        Ok(Seq::empty())
    } else {
        match balances_text(entries, hs.drop_last()) {
            Err(e) => Err(e),
            Ok(t) => match holder_text(entries, hs.last()) {
                Err(e) => Err(e),
                Ok(u) => Ok(t + u),
            },
        }
    }
}

/// Renders a two-level balance mapping as grouped lines: for each holder its
/// name, then `ASSET: amount` for each of its balances, each amount converted
/// at its asset's scale. Order is that of `balances`.
pub fn balance_map_format(balances: &Vec<HolderBalances>, registry: &AssetRegistry) -> (r: Result<
    String,
    CoreError,
>)
    ensures
        text_of(r) == balances_text(registry.entries@, balances@),
{
    let ghost entries = registry.entries@;
    let mut out = String::new();
    let mut i: usize = 0;
    while i < balances.len()
        invariant
            0 <= i <= balances@.len(),
            entries == registry.entries@,
            balances_text(entries, balances@.take(i as int)) == Ok::<Seq<char>, CoreError>(out@),
        decreases balances@.len() - i,
    {
        assert(balances@.take(i + 1).drop_last() =~= balances@.take(i as int));
        let h = &balances[i];
        let ghost before = out@;
        out.append(h.holder.as_str());
        out.append("\n");
        let mut j: usize = 0;
        while j < h.balances.len()
            invariant
                0 <= j <= h.balances@.len(),
                0 <= i < balances@.len(),
                *h == balances@[i as int],
                entries == registry.entries@,
                balances_text(entries, balances@.take(i as int)) == Ok::<Seq<char>, CoreError>(
                    before,
                ),
                balance_lines(entries, h.balances@.take(j as int)) is Ok,
                out@ == before + h.holder@ + "\n"@ + balance_lines(
                    entries,
                    h.balances@.take(j as int),
                ).unwrap(),
            decreases h.balances@.len() - j,
        {
            assert(h.balances@.take(j + 1).drop_last() =~= h.balances@.take(j as int));
            let b = &h.balances[j];
            let ghost lines = balance_lines(entries, h.balances@.take(j as int)).unwrap();
            let text = match render_amount(&b.amount, b.asset.as_str(), registry) {
                Ok(t) => t,
                Err(e) => {
                    assert(balance_lines(entries, h.balances@.take(j + 1)) == Err::<
                        Seq<char>,
                        CoreError,
                    >(e));
                    proof {
                        lemma_lines_error_persists(entries, h.balances@, j + 1, e);
                    }
                    assert(balances@.take(i + 1).last() == balances@[i as int]);
                    assert(balances@.take(i + 1).drop_last() =~= balances@.take(i as int));
                    assert(holder_text(entries, balances@[i as int]) == Err::<Seq<char>, CoreError>(
                        e,
                    ));
                    assert(balances_text(entries, balances@.take(i + 1)) == Err::<
                        Seq<char>,
                        CoreError,
                    >(e));
                    proof {
                        lemma_text_error_persists(entries, balances@, i + 1, e);
                    }
                    assert(balances@ =~= balances@.take(balances@.len() as int));
                    return Err(e);
                },
            };
            out.append(b.asset.as_str());
            out.append(": ");
            out.append(text.as_str());
            out.append("\n");
            assert(out@ =~= before + h.holder@ + "\n"@ + (lines + (b.asset@ + ": "@ + text@
                + "\n"@)));
            j = j + 1;
        }
        assert(h.balances@.take(j as int) =~= h.balances@);
        assert(out@ =~= before + (h.holder@ + "\n"@ + balance_lines(entries, h.balances@).unwrap()));
        i = i + 1;
    }
    assert(balances@.take(i as int) =~= balances@);
    Ok(out)
}

/// Once a prefix of a group fails, every longer prefix fails the same way.
proof fn lemma_lines_error_persists(entries: Seq<AssetEntry>, bs: Seq<AssetBalance>, k: int, e: CoreError)
    requires
        0 <= k <= bs.len(),
        balance_lines(entries, bs.take(k)) == Err::<Seq<char>, CoreError>(e),
    ensures
        balance_lines(entries, bs) == Err::<Seq<char>, CoreError>(e),
    decreases bs.len() - k,
{
    if k < bs.len() {
        assert(bs.take(k + 1).drop_last() =~= bs.take(k));
        lemma_lines_error_persists(entries, bs, k + 1, e);
    } else {
        assert(bs.take(k) =~= bs);
    }
}

/// Once a prefix of the listing fails, every longer prefix fails the same way.
proof fn lemma_text_error_persists(entries: Seq<AssetEntry>, hs: Seq<HolderBalances>, k: int, e: CoreError)
    requires
        0 <= k <= hs.len(),
        balances_text(entries, hs.take(k)) == Err::<Seq<char>, CoreError>(e),
    ensures
        balances_text(entries, hs) == Err::<Seq<char>, CoreError>(e),
    decreases hs.len() - k,
{
    if k < hs.len() {
        assert(hs.take(k + 1).drop_last() =~= hs.take(k));
        lemma_text_error_persists(entries, hs, k + 1, e);
    } else {
        assert(hs.take(k) =~= hs);
    }
}

/// Every asset of the group is in the registry.
pub open spec fn group_known(entries: Seq<AssetEntry>, bs: Seq<AssetBalance>) -> bool {
    forall|j: int| 0 <= j < bs.len() ==> (#[trigger] scale_in(entries, bs[j].asset@)) is Some
}

/// Every asset of the listing is in the registry.
pub open spec fn listing_known(entries: Seq<AssetEntry>, hs: Seq<HolderBalances>) -> bool {
    forall|i: int| 0 <= i < hs.len() ==> group_known(entries, (#[trigger] hs[i]).balances@)
}

proof fn lemma_group_fails_only_on_unknown(entries: Seq<AssetEntry>, bs: Seq<AssetBalance>)
    ensures
        (balance_lines(entries, bs) is Ok) == group_known(entries, bs),
        balance_lines(entries, bs) is Err ==> balance_lines(entries, bs) == Err::<
            Seq<char>,
            CoreError,
        >(CoreError::UnknownAsset),
    decreases bs.len(),
{
    if bs.len() > 0 {
        let init = bs.drop_last();
        lemma_group_fails_only_on_unknown(entries, init);
        assert forall|j: int| 0 <= j < init.len() implies #[trigger] init[j] == bs[j] by {}
        if group_known(entries, bs) {
            assert forall|j: int| 0 <= j < init.len() implies (#[trigger] scale_in(
                entries,
                init[j].asset@,
            )) is Some by {
                assert(init[j] == bs[j]);
            }
            assert(scale_in(entries, bs[bs.len() - 1].asset@) is Some);
        } else if group_known(entries, init) {
            let j = choose|j: int|
                0 <= j < bs.len() && !((#[trigger] scale_in(entries, bs[j].asset@)) is Some);
            if j < init.len() {
                assert(init[j] == bs[j]);
            }
        }
    }
}

/// A listing renders in full exactly when every asset in it is known, and
/// fails with `UnknownAsset` otherwise: amounts of any size are rendered.
pub proof fn lemma_listing_fails_only_on_unknown(entries: Seq<AssetEntry>, hs: Seq<HolderBalances>)
    ensures
        (balances_text(entries, hs) is Ok) == listing_known(entries, hs),
        balances_text(entries, hs) is Err ==> balances_text(entries, hs) == Err::<
            Seq<char>,
            CoreError,
        >(CoreError::UnknownAsset),
    decreases hs.len(),
{
    if hs.len() > 0 {
        let init = hs.drop_last();
        lemma_listing_fails_only_on_unknown(entries, init);
        lemma_group_fails_only_on_unknown(entries, hs.last().balances@);
        assert forall|i: int| 0 <= i < init.len() implies #[trigger] init[i] == hs[i] by {}
        if listing_known(entries, hs) {
            assert forall|i: int| 0 <= i < init.len() implies group_known(
                entries,
                (#[trigger] init[i]).balances@,
            ) by {
                assert(init[i] == hs[i]);
            }
            assert(group_known(entries, hs[hs.len() - 1].balances@));
        } else if listing_known(entries, init) {
            let i = choose|i: int|
                0 <= i < hs.len() && !group_known(entries, (#[trigger] hs[i]).balances@);
            if i < init.len() {
                assert(init[i] == hs[i]);
            }
        }
    }
}

} // verus!
