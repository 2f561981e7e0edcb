//! From a swap intent to the exchange's take-order parameters.
//!
//! The exchange matches an order against resting liquidity until a limit
//! price, a base quantity in lots, a quote quantity or its iteration budget
//! is exhausted. A swap wants "spend at most this, at any price", so each
//! direction pins the side it cares about and opens the other bounds fully.

use vstd::prelude::*;

verus! {

/// The direction of a swap on a base/price market.
#[derive(Clone, Copy, Debug, PartialEq, Eq, Structural)]
pub enum Side {
    /// Pay in the price currency, receive the base currency.
    Bid,
    /// Pay in the base currency, receive the price currency.
    Ask,
}

/// The greatest limit price: a bid at it accepts every ask.
pub const MAX_LIMIT_PRICE: u64 = 0xffff_ffff_ffff_ffff;

/// The least limit price the exchange accepts: an ask at it accepts every bid.
pub const MIN_LIMIT_PRICE: u64 = 1;

/// The placeholder for a quantity that is not to bound the order.
pub const UNBOUNDED_QTY: u64 = 0xffff_ffff_ffff_ffff;

/// The number of matching iterations every order is allowed.
pub const ITERATION_LIMIT: u16 = 65535;

/// What a swap needs to know of a market. It is read from the exchange anew
/// for every order and never kept.
#[derive(Clone, Copy, Debug, PartialEq, Eq, Structural)]
pub struct MarketDescriptor {
    /// The smallest tradable increment of the base asset, in native units.
    pub lot_size: u64,
}

impl MarketDescriptor {
    /// A market can quantize amounts only with a positive lot size.
    pub open spec fn wf(&self) -> bool {
        self.lot_size > 0
    }
}

/// The parameters of one take order, in the exchange's terms.
#[derive(Clone, Copy, Debug, PartialEq, Eq, Structural)]
pub struct OrderParameters {
    pub side: Side,
    /// Worst acceptable price.
    pub limit_price: u64,
    /// Most base asset to trade, in lots.
    pub max_base_qty: u64,
    /// Most price currency to trade, in native units, exchange fees included.
    pub max_quote_qty_incl_fees: u64,
    /// Least base asset that must trade, in lots, or the order fails.
    pub min_base_qty: u64,
    /// Least price currency that must trade, in native units, or the order fails.
    pub min_quote_qty: u64,
    /// Bound on the matching work the exchange does for the order.
    pub iteration_limit: u16,
}

impl OrderParameters {
    /// The exchange takes an order only if its limit price and both maximum
    /// quantities are positive.
    pub open spec fn submittable(&self) -> bool {
        &&& self.limit_price > 0
        &&& self.max_base_qty > 0
        &&& self.max_quote_qty_incl_fees > 0
    }

    /// Tells whether the exchange would take the order.
    pub fn is_submittable(&self) -> (ok: bool)
        ensures
            ok == self.submittable(),
    {
        self.limit_price > 0 && self.max_base_qty > 0 && self.max_quote_qty_incl_fees > 0
    }
}

/// The whole lots of the base asset contained in `size` native units.
pub open spec fn lots_of(size: int, lot_size: int) -> int {
    size / lot_size
}

/// The bid that spends at most `max_quote_in` of the price currency.
pub open spec fn bid_parameters(max_quote_in: u64, min_base_out: u64, lot_size: u64)
    -> OrderParameters {
    OrderParameters {
        side: Side::Bid,
        limit_price: MAX_LIMIT_PRICE,
        max_base_qty: UNBOUNDED_QTY,
        max_quote_qty_incl_fees: max_quote_in,
        min_base_qty: lots_of(min_base_out as int, lot_size as int) as u64,
        min_quote_qty: 0,
        iteration_limit: ITERATION_LIMIT,
    }
}

/// The ask that sells at most `max_base_in` of the base asset.
pub open spec fn ask_parameters(max_base_in: u64, min_quote_out: u64, lot_size: u64)
    -> OrderParameters {
    OrderParameters {
        side: Side::Ask,
        limit_price: MIN_LIMIT_PRICE,
        max_base_qty: lots_of(max_base_in as int, lot_size as int) as u64,
        max_quote_qty_incl_fees: UNBOUNDED_QTY,
        min_base_qty: lots_of(max_base_in as int, lot_size as int) as u64,
        min_quote_qty: min_quote_out,
        iteration_limit: ITERATION_LIMIT,
    }
}

/// Returns the number of whole lots of the base currency in `size`, rounding
/// down.
pub fn coin_lots(market: &MarketDescriptor, size: u64) -> (lots: u64)
    requires
        market.wf(),
    ensures
        lots == lots_of(size as int, market.lot_size as int),
        lots * market.lot_size <= size < (lots + 1) * market.lot_size,
        lots == 0 <==> size < market.lot_size,
{
    let lots: u64 = size / market.lot_size;
    proof {
        lemma_lots_bracket(size as int, market.lot_size as int);
    }
    lots
}

/// Expresses "pay at most `max_quote_in` of the price currency for at least
/// `min_base_out` of the base asset" as order parameters. Any price is
/// accepted and the base quantity is left open, so the order fills up to the
/// input cap. The minimum output is rounded down to whole lots: the caller's
/// protection is exact to within one lot.
pub fn bid(max_quote_in: u64, min_base_out: u64, market: &MarketDescriptor) -> (order:
    OrderParameters)
    requires
        market.wf(),
    ensures
        order == bid_parameters(max_quote_in, min_base_out, market.lot_size),
        order.side == Side::Bid,
        order.limit_price == u64::MAX,
        order.max_base_qty == u64::MAX,
        order.max_quote_qty_incl_fees == max_quote_in,
        order.min_base_qty == min_base_out as int / market.lot_size as int,
        order.min_quote_qty == 0,
        order.iteration_limit == ITERATION_LIMIT,
        order.min_base_qty * market.lot_size <= min_base_out < (order.min_base_qty + 1)
            * market.lot_size,
        order.submittable() <==> max_quote_in > 0,
{
    let min_base_qty: u64 = coin_lots(market, min_base_out);
    OrderParameters {
        side: Side::Bid,
        limit_price: MAX_LIMIT_PRICE,
        max_base_qty: UNBOUNDED_QTY,
        max_quote_qty_incl_fees: max_quote_in,
        min_base_qty,
        min_quote_qty: 0,
        iteration_limit: ITERATION_LIMIT,
    }
}

/// Expresses "sell at most `max_base_in` of the base asset for at least
/// `min_quote_out` of the price currency" as order parameters. Any price is
/// accepted; the input is rounded down to whole lots and must fill entirely.
/// An input below one lot quantizes to zero lots, which the exchange does not
/// take.
pub fn ask(max_base_in: u64, min_quote_out: u64, market: &MarketDescriptor) -> (order:
    OrderParameters)
    requires
        market.wf(),
    ensures
        order == ask_parameters(max_base_in, min_quote_out, market.lot_size),
        order.side == Side::Ask,
        order.limit_price == 1,
        order.max_base_qty == max_base_in as int / market.lot_size as int,
        order.max_quote_qty_incl_fees == u64::MAX,
        order.min_base_qty == order.max_base_qty,
        order.min_quote_qty == min_quote_out,
        order.iteration_limit == ITERATION_LIMIT,
        max_base_in < market.lot_size ==> order.max_base_qty == 0,
        order.max_base_qty * market.lot_size <= max_base_in < (order.max_base_qty + 1)
            * market.lot_size,
        order.submittable() <==> max_base_in >= market.lot_size,
{
    let max_base_qty: u64 = coin_lots(market, max_base_in);
    OrderParameters {
        side: Side::Ask,
        limit_price: MIN_LIMIT_PRICE,
        max_base_qty,
        max_quote_qty_incl_fees: UNBOUNDED_QTY,
        min_base_qty: max_base_qty,
        min_quote_qty: min_quote_out,
        iteration_limit: ITERATION_LIMIT,
    }
}

/// Rounding down to lots loses less than one lot.
pub proof fn lemma_lots_bracket(size: int, lot_size: int)
    requires
        0 <= size,
        0 < lot_size,
    ensures
        0 <= lots_of(size, lot_size) <= size,
        lots_of(size, lot_size) * lot_size <= size < (lots_of(size, lot_size) + 1) * lot_size,
        size < lot_size <==> lots_of(size, lot_size) == 0,
{
    vstd::arithmetic::div_mod::lemma_fundamental_div_mod(size, lot_size);
    vstd::arithmetic::div_mod::lemma_mod_bound(size, lot_size);
    vstd::arithmetic::div_mod::lemma_div_pos_is_pos(size, lot_size);
    vstd::arithmetic::div_mod::lemma_div_is_ordered_by_denominator(size, 1, lot_size);
    vstd::arithmetic::div_mod::lemma_div_basics(size);
    let q = lots_of(size, lot_size);
    assert(size == lot_size * q + size % lot_size);
    assert(lot_size * q == q * lot_size) by (nonlinear_arith);
    assert((q + 1) * lot_size == q * lot_size + lot_size) by (nonlinear_arith);
    if q == 0 {
        assert(q * lot_size == 0);
    } else {
        assert(q * lot_size >= lot_size) by (nonlinear_arith)
            requires
                q >= 1,
                lot_size > 0,
        ;
    }
}

} // verus!
