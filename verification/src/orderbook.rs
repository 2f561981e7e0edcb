//! Placing bids and asks for one user on one market.

use crate::accounts::OrderbookClient;
use crate::dex::{send_take, SendTake, TakeOrder};
use crate::error::Defect;
use crate::market::{
    ask, ask_parameters, bid, bid_parameters, MarketDescriptor, OrderParameters, Side,
    ITERATION_LIMIT,
};
use vstd::prelude::*;

verus! {

impl OrderbookClient {
    /// The accounts of a take order placed through this client.
    pub open spec fn take_accounts(&self) -> SendTake {
        SendTake {
            market: self.market.market,
            request_queue: self.market.request_queue,
            event_queue: self.market.event_queue,
            market_bids: self.market.market_bids,
            market_asks: self.market.market_asks,
            coin_wallet: self.market.coin_wallet.key,
            pc_wallet: self.pc_wallet,
            wallet_owner: self.wallet_owner,
            coin_vault: self.market.coin_vault,
            pc_vault: self.market.pc_vault,
            token_program: self.token_program,
            vault_signer: self.market.vault_signer,
        }
    }

    /// The take order that carries `order` to this client's market. No
    /// referral account is attached.
    pub open spec fn take_order(&self, order: OrderParameters) -> TakeOrder {
        TakeOrder {
            dex_program: self.dex_program,
            accounts: self.take_accounts(),
            referral: None,
            order,
        }
    }

    /// What placing `order` through this client comes to: the take order, or
    /// the defect of an order the exchange would not accept.
    pub open spec fn place(&self, order: OrderParameters) -> Result<TakeOrder, Defect> {
        if order.submittable() {
            Ok(self.take_order(order))
        } else {
            Err(Defect::ZeroOrderQuantity)
        }
    }

    /// What a bid on a market with lot size `lot_size` comes to.
    pub open spec fn bid_spec(&self, max_pc_amount_input: u64, min_coin_amount_output: u64,
        lot_size: u64) -> Result<TakeOrder, Defect> {
        if lot_size == 0 {
            Err(Defect::ZeroLotSize)
        } else {
            self.place(bid_parameters(max_pc_amount_input, min_coin_amount_output, lot_size))
        }
    }

    /// What an ask on a market with lot size `lot_size` comes to.
    pub open spec fn ask_spec(&self, max_coin_amount_input: u64, min_pc_amount_output: u64,
        lot_size: u64) -> Result<TakeOrder, Defect> {
        if lot_size == 0 {
            Err(Defect::ZeroLotSize)
        } else {
            self.place(ask_parameters(max_coin_amount_input, min_pc_amount_output, lot_size))
        }
    }

    /// Swaps from the price currency to the base currency: a bid that spends
    /// at most `max_pc_amount_input` at any price and must bring at least
    /// `min_coin_amount_output`, rounded down to lots.
    ///
    /// `market` is the market's state as just read. The result is the order
    /// to submit. A market without a lot size and an input cap of zero are
    /// defects.
    pub fn bid(&self, max_pc_amount_input: u64, min_coin_amount_output: u64,
        market: &MarketDescriptor) -> (placed: Result<TakeOrder, Defect>)
        ensures
            placed == self.bid_spec(max_pc_amount_input, min_coin_amount_output, market.lot_size),
            placed is Ok <==> market.lot_size > 0 && max_pc_amount_input > 0,
            placed matches Ok(take) ==> take.wf(),
    {
        if market.lot_size == 0 {
            return Err(Defect::ZeroLotSize);
        }
        let order = bid(max_pc_amount_input, min_coin_amount_output, market);
        self.send_take_cpi(
            Side::Bid,
            order.limit_price,
            order.max_base_qty,
            order.max_quote_qty_incl_fees,
            order.min_base_qty,
            order.min_quote_qty,
        )
    }

    /// Swaps from the base currency to the price currency: an ask that sells
    /// the whole lots in `max_coin_amount_input` at any price, all of them or
    /// none, and must bring at least `min_pc_amount_output`.
    ///
    /// `market` is the market's state as just read. The result is the order
    /// to submit. A market without a lot size and an input of less than one
    /// lot are defects.
    pub fn ask(&self, max_coin_amount_input: u64, min_pc_amount_output: u64,
        market: &MarketDescriptor) -> (placed: Result<TakeOrder, Defect>)
        ensures
            placed == self.ask_spec(max_coin_amount_input, min_pc_amount_output, market.lot_size),
            placed is Ok <==> 0 < market.lot_size <= max_coin_amount_input,
            placed matches Ok(take) ==> take.wf(),
    {
        if market.lot_size == 0 {
            return Err(Defect::ZeroLotSize);
        }
        let order = ask(max_coin_amount_input, min_pc_amount_output, market);
        self.send_take_cpi(
            Side::Ask,
            order.limit_price,
            order.max_base_qty,
            order.max_quote_qty_incl_fees,
            order.min_base_qty,
            order.min_quote_qty,
        )
    }

    /// Prepares a take order on this client's market with the fixed
    /// iteration budget. An order whose limit price or one of whose maximum
    /// quantities is zero is refused as a defect.
    pub fn send_take_cpi(
        &self,
        side: Side,
        limit_price: u64,
        max_coin_qty: u64,
        max_native_pc_qty_including_fees: u64,
        min_coin_qty: u64,
        min_native_pc_qty: u64,
    ) -> (placed: Result<TakeOrder, Defect>)
        ensures
            placed == self.place(
                OrderParameters {
                    side,
                    limit_price,
                    max_base_qty: max_coin_qty,
                    max_quote_qty_incl_fees: max_native_pc_qty_including_fees,
                    min_base_qty: min_coin_qty,
                    min_quote_qty: min_native_pc_qty,
                    iteration_limit: ITERATION_LIMIT,
                },
            ),
            placed is Ok <==> limit_price > 0 && max_coin_qty > 0
                && max_native_pc_qty_including_fees > 0,
            placed matches Ok(take) ==> take.wf() && take.order.iteration_limit == ITERATION_LIMIT,
    {
        let cpi_accounts = SendTake {
            market: self.market.market,
            request_queue: self.market.request_queue,
            event_queue: self.market.event_queue,
            market_bids: self.market.market_bids,
            market_asks: self.market.market_asks,
            coin_wallet: self.market.coin_wallet.key,
            pc_wallet: self.pc_wallet,
            wallet_owner: self.wallet_owner,
            coin_vault: self.market.coin_vault,
            pc_vault: self.market.pc_vault,
            token_program: self.token_program,
            vault_signer: self.market.vault_signer,
        };
        if limit_price == 0 || max_coin_qty == 0 || max_native_pc_qty_including_fees == 0 {
            return Err(Defect::ZeroOrderQuantity);
        }
        // The exchange stops matching after this many cycles and leaves the
        // rest of the order unfilled.
        let limit: u16 = ITERATION_LIMIT;
        Ok(
            send_take(
                self.dex_program,
                cpi_accounts,
                None,
                side,
                limit_price,
                max_coin_qty,
                max_native_pc_qty_including_fees,
                min_coin_qty,
                min_native_pc_qty,
                limit,
            ),
        )
    }
}

} // verus!
