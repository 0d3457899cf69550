//! Overseas futures and options: orders, their modification and
//! cancellation, open positions, the deposit and the executions.

pub mod tr_id;

use vstd::prelude::*;
use crate::http::HttpResponse;
use crate::json::{
    is_object, json_document, json_error_text, json_is_object, json_present, members_view,
    object_text, optional_of, optional_ok, optional_text, required_of, required_ok, required_text,
    text_member, write_object, Member,
};
use crate::kis::types::{
    envelope_readable, list_outcome, parse_failure, read_envelope, remote_failure, reports_success,
    shape_failure, single_outcome, KisConfigView, KisError, KisErrorView, KisResult, OrderResult,
    Outcome, OutcomeView, Payload,
};
use crate::kis::overseas_future::tr_id::{
    INQUIRE_DEPOSIT, INQUIRE_EXECUTION, INQUIRE_UNSETTLED, MODIFY_CANCEL,
};
use crate::kis::{opt_response, CallState, DomainCall, DomainCallView, KisClient};
use crate::text::{decimal, decimal_text, opt_view};

verus! {

/// Side of an order for an overseas future or option.
#[derive(Debug, Clone, Copy, PartialEq, Eq, Structural)]
pub enum OrderSide {
    /// Sell.
    Sell,
    /// Buy.
    Buy,
}

impl OrderSide {
    /// The code of the side.
    pub open spec fn code_spec(self) -> Seq<char> {
        match self {
            OrderSide::Sell => "01"@,
            OrderSide::Buy => "02"@,
        }
    }

    /// The code of the side.
    pub fn code(&self) -> (r: &'static str)
        ensures
            r@ == self.code_spec(),
    {
        match self {
            OrderSide::Sell => "01",
            OrderSide::Buy => "02",
        }
    }
}

/// Whether an order opens a position or closes one.
#[derive(Debug, Clone, Copy, PartialEq, Eq, Structural)]
pub enum PositionType {
    /// The order opens a position.
    New,
    /// The order closes a position.
    Close,
}

impl PositionType {
    /// The identifier of the operation that buys.
    pub open spec fn buy_tr_id_spec(self) -> Seq<char> {
        match self {
            PositionType::New => "OTFM3001U"@,
            PositionType::Close => "OTFM3003U"@,
        }
    }

    /// The identifier of the operation that buys.
    pub fn buy_tr_id(&self) -> (r: &'static str)
        ensures
            r@ == self.buy_tr_id_spec(),
    {
        match self {
            PositionType::New => "OTFM3001U",
            PositionType::Close => "OTFM3003U",
        }
    }

    /// The identifier of the operation that sells.
    pub open spec fn sell_tr_id_spec(self) -> Seq<char> {
        match self {
            PositionType::New => "OTFM3002U"@,
            PositionType::Close => "OTFM3004U"@,
        }
    }

    /// The identifier of the operation that sells.
    pub fn sell_tr_id(&self) -> (r: &'static str)
        ensures
            r@ == self.sell_tr_id_spec(),
    {
        match self {
            PositionType::New => "OTFM3002U",
            PositionType::Close => "OTFM3004U",
        }
    }
}

/// How the price of an order is set.
#[derive(Debug, Clone, Copy, PartialEq, Eq, Structural)]
pub enum PriceType {
    /// At a limit.
    Limit,
    /// At the market.
    Market,
}

impl PriceType {
    /// The code of the price type.
    pub open spec fn code_spec(self) -> Seq<char> {
        match self {
            PriceType::Limit => "1"@,
            PriceType::Market => "2"@,
        }
    }

    /// The code of the price type.
    pub fn code(&self) -> (r: &'static str)
        ensures
            r@ == self.code_spec(),
    {
        match self {
            PriceType::Limit => "1",
            PriceType::Market => "2",
        }
    }
}

/// An order for an overseas future or option.
#[derive(Debug, Clone)]
pub struct OverseasFutureOrderRequest {
    /// Account: the first eight digits of the account number.
    pub cano: String,
    /// Product code: the last two digits of the account number.
    pub acnt_prdt_cd: String,
    /// Code of the instrument.
    pub symbol: String,
    /// Side: 01 to sell, 02 to buy.
    pub side: String,
    /// Price type: 1 limit, 2 market.
    pub price_type: String,
    /// Quantity.
    pub quantity: String,
    /// Limit price.
    pub limit_price: String,
}

/// The members of a [`OverseasFutureOrderRequest`] as they are written, in their order.
pub open spec fn overseas_future_order_members(
    cano: Seq<char>,
    acnt_prdt_cd: Seq<char>,
    symbol: Seq<char>,
    side: Seq<char>,
    price_type: Seq<char>,
    quantity: Seq<char>,
    limit_price: Seq<char>,
) -> Seq<(Seq<char>, Option<Seq<char>>)> {
    seq![
        ("CANO"@, Some(cano)),
        ("ACNT_PRDT_CD"@, Some(acnt_prdt_cd)),
        ("OVRS_FUTR_FX_PDNO"@, Some(symbol)),
        ("SLL_BUY_DVSN_CD"@, Some(side)),
        ("PRIC_DVSN_CD"@, Some(price_type)),
        ("ORD_QTY"@, Some(quantity)),
        ("FUOP_LIMT_PRIC"@, Some(limit_price)),
    ]
}

impl OverseasFutureOrderRequest {
    /// The members of the request as they are written, in their order.
    pub open spec fn members(&self) -> Seq<(Seq<char>, Option<Seq<char>>)> {
        overseas_future_order_members(
            self.cano@,
            self.acnt_prdt_cd@,
            self.symbol@,
            self.side@,
            self.price_type@,
            self.quantity@,
            self.limit_price@,
        )
    }

    /// The request as the JSON text that is sent and signed.
    pub fn to_json(&self) -> (r: String)
        ensures
            r@ == object_text(self.members()),
    {
        let mut members: Vec<Member> = Vec::new();
        members.push(text_member("CANO", self.cano.as_str()));
        members.push(text_member("ACNT_PRDT_CD", self.acnt_prdt_cd.as_str()));
        members.push(text_member("OVRS_FUTR_FX_PDNO", self.symbol.as_str()));
        members.push(text_member("SLL_BUY_DVSN_CD", self.side.as_str()));
        members.push(text_member("PRIC_DVSN_CD", self.price_type.as_str()));
        members.push(text_member("ORD_QTY", self.quantity.as_str()));
        members.push(text_member("FUOP_LIMT_PRIC", self.limit_price.as_str()));
        assert(members_view(members@) =~= self.members());
        write_object(&members)
    }
}

impl OverseasFutureOrderRequest {
    /// An order for `quantity` of `symbol`.  `limit_price` is the price as it
    /// is written in the order.
    pub fn new(
        cano: String,
        acnt_prdt_cd: String,
        symbol: String,
        side: OrderSide,
        price_type: PriceType,
        quantity: u32,
        limit_price: String,
    ) -> (r: OverseasFutureOrderRequest)
        ensures
            r.members() == overseas_future_order_members(
                cano@,
                acnt_prdt_cd@,
                symbol@,
                side.code_spec(),
                price_type.code_spec(),
                decimal(quantity as nat),
                limit_price@,
            ),
    {
        OverseasFutureOrderRequest {
            cano,
            acnt_prdt_cd,
            symbol,
            side: side.code().to_owned(),
            price_type: price_type.code().to_owned(),
            quantity: decimal_text(quantity as u64),
            limit_price,
        }
    }
}

/// A modification or a cancellation of an order for an overseas future or
/// option.
#[derive(Debug, Clone)]
pub struct OverseasFutureModifyCancelRequest {
    /// Account: the first eight digits of the account number.
    pub cano: String,
    /// Product code: the last two digits of the account number.
    pub acnt_prdt_cd: String,
    /// Number of the order to modify or cancel.
    pub original_order_no: String,
    /// 01 to modify, 02 to cancel.
    pub modify_cancel_type: String,
    /// New quantity, for a modification; left out where there is none.
    pub quantity: Option<String>,
    /// New limit price, for a modification; left out where there is none.
    pub limit_price: Option<String>,
}

/// One member, or none where there is no text for it.
pub open spec fn member_if_any(
    name: Seq<char>,
    text: Option<Seq<char>>,
) -> Seq<(Seq<char>, Option<Seq<char>>)> {
    match text {
        Some(t) => seq![(name, Some(t))],
        None => Seq::empty(),
    }
}

/// The members of an [`OverseasFutureModifyCancelRequest`] as they are
/// written, in their order: a quantity or a limit price that is not there is
/// left out.
pub open spec fn overseas_future_modify_cancel_members(
    cano: Seq<char>,
    acnt_prdt_cd: Seq<char>,
    original_order_no: Seq<char>,
    modify_cancel_type: Seq<char>,
    quantity: Option<Seq<char>>,
    limit_price: Option<Seq<char>>,
) -> Seq<(Seq<char>, Option<Seq<char>>)> {
    seq![
        ("CANO"@, Some(cano)),
        ("ACNT_PRDT_CD"@, Some(acnt_prdt_cd)),
        ("ORGN_ODNO"@, Some(original_order_no)),
        ("RVSE_CNCL_DVSN_CD"@, Some(modify_cancel_type)),
    ] + member_if_any("ORD_QTY"@, quantity) + member_if_any("FUOP_LIMT_PRIC"@, limit_price)
}

/// The decimal numeral of an optional number.
pub open spec fn opt_decimal(n: Option<u32>) -> Option<Seq<char>> {
    match n {
        Some(q) => Some(decimal(q as nat)),
        None => None,
    }
}

impl OverseasFutureModifyCancelRequest {
    /// The members of the request as they are written, in their order.
    pub open spec fn members(&self) -> Seq<(Seq<char>, Option<Seq<char>>)> {
        overseas_future_modify_cancel_members(
            self.cano@,
            self.acnt_prdt_cd@,
            self.original_order_no@,
            self.modify_cancel_type@,
            opt_view(self.quantity),
            opt_view(self.limit_price),
        )
    }

    /// The request as the JSON text that is sent and signed.
    pub fn to_json(&self) -> (r: String)
        ensures
            r@ == object_text(self.members()),
    {
        let mut members: Vec<Member> = Vec::new();
        members.push(text_member("CANO", self.cano.as_str()));
        members.push(text_member("ACNT_PRDT_CD", self.acnt_prdt_cd.as_str()));
        members.push(text_member("ORGN_ODNO", self.original_order_no.as_str()));
        members.push(text_member("RVSE_CNCL_DVSN_CD", self.modify_cancel_type.as_str()));
        if let Some(q) = &self.quantity {
            members.push(text_member("ORD_QTY", q.as_str()));
        }
        if let Some(p) = &self.limit_price {
            members.push(text_member("FUOP_LIMT_PRIC", p.as_str()));
        }
        assert(members_view(members@) =~= self.members());
        write_object(&members)
    }

    /// The cancellation of the order `original_order_no`.
    pub fn cancel(cano: String, acnt_prdt_cd: String, original_order_no: String) -> (r:
        OverseasFutureModifyCancelRequest)
        ensures
            r.members() == overseas_future_modify_cancel_members(
                cano@,
                acnt_prdt_cd@,
                original_order_no@,
                "02"@,
                None,
                None,
            ),
    {
        OverseasFutureModifyCancelRequest {
            cano,
            acnt_prdt_cd,
            original_order_no,
            modify_cancel_type: "02".to_owned(),
            quantity: None,
            limit_price: None,
        }
    }

    /// The modification of the order `original_order_no`: a new quantity, a
    /// new limit price, or both.  `limit_price` is the price as it is written
    /// in the request.
    pub fn modify(
        cano: String,
        acnt_prdt_cd: String,
        original_order_no: String,
        quantity: Option<u32>,
        limit_price: Option<String>,
    ) -> (r: OverseasFutureModifyCancelRequest)
        ensures
            r.members() == overseas_future_modify_cancel_members(
                cano@,
                acnt_prdt_cd@,
                original_order_no@,
                "01"@,
                opt_decimal(quantity),
                opt_view(limit_price),
            ),
    {
        OverseasFutureModifyCancelRequest {
            cano,
            acnt_prdt_cd,
            original_order_no,
            modify_cancel_type: "01".to_owned(),
            quantity: match quantity {
                Some(q) => Some(decimal_text(q as u64)),
                None => None,
            },
            limit_price,
        }
    }
}

/// The text, or the empty text where there is none.
pub open spec fn text_or_empty(text: Option<Seq<char>>) -> Seq<char> {
    match text {
        Some(t) => t,
        None => Seq::empty(),
    }
}

/// What the remote system answers to an order for an overseas future or
/// option, or to its modification or cancellation.
#[derive(Debug, Clone)]
pub struct OverseasFutureOrderResponse {
    /// Order number.
    pub order_no: String,
    /// Time of the order.
    pub order_time: String,
    /// Number of the organisation that forwarded the order; empty where the reply has none.
    pub extra_info: String,
}

impl Payload for OverseasFutureOrderResponse {
    open spec fn readable(value: serde_json::Value) -> bool {
        &&& json_is_object(value)
        &&& required_ok(value, "ODNO"@)
        &&& required_ok(value, "ORD_TMD"@)
        &&& optional_ok(value, "KRX_FWDG_ORD_ORGNO"@)
    }

    open spec fn holds(&self, value: serde_json::Value) -> bool {
        &&& self.order_no@ == required_of(value, "ODNO"@)
        &&& self.order_time@ == required_of(value, "ORD_TMD"@)
        &&& self.extra_info@ == text_or_empty(optional_of(value, "KRX_FWDG_ORD_ORGNO"@))
    }

    fn from_json(value: &serde_json::Value) -> (r: Option<Self>) {
        if !is_object(value) {
            return None;
        }
        let order_no = match required_text(value, "ODNO") {
            Some(t) => t,
            None => {
                return None;
            },
        };
        let order_time = match required_text(value, "ORD_TMD") {
            Some(t) => t,
            None => {
                return None;
            },
        };
        let extra_info = match optional_text(value, "KRX_FWDG_ORD_ORGNO") {
            Ok(Some(t)) => t,
            Ok(None) => String::new(),
            Err(_) => {
                return None;
            },
        };
        Some(OverseasFutureOrderResponse { order_no, order_time, extra_info })
    }
}

/// One open position in overseas futures or options.
#[derive(Debug, Clone)]
pub struct UnsettledPosition {
    /// Code of the instrument.
    pub symbol: String,
    /// Name of the instrument.
    pub symbol_name: String,
    /// Quantity that is open.
    pub quantity: String,
    /// Average price.
    pub average_price: String,
    /// Current price.
    pub current_price: String,
    /// Valuation profit or loss.
    pub profit_loss: String,
    /// Valuation profit or loss, as a rate.
    pub profit_loss_rate: String,
    /// Side: 01 sold, 02 bought.
    pub side: String,
    /// Code of the currency.
    pub currency: String,
}

impl Payload for UnsettledPosition {
    open spec fn readable(value: serde_json::Value) -> bool {
        &&& json_is_object(value)
        &&& required_ok(value, "OVRS_FUTR_FX_PDNO"@)
        &&& required_ok(value, "OVRS_FUTR_FX_ITEM_NM"@)
        &&& required_ok(value, "UNPD_QTY"@)
        &&& required_ok(value, "AVG_PRIC"@)
        &&& required_ok(value, "PRPR"@)
        &&& required_ok(value, "EVLU_PFLS_AMT"@)
        &&& required_ok(value, "EVLU_PFLS_RT"@)
        &&& required_ok(value, "SLL_BUY_DVSN_CD"@)
        &&& required_ok(value, "CRCY_CD"@)
    }

    open spec fn holds(&self, value: serde_json::Value) -> bool {
        &&& self.symbol@ == required_of(value, "OVRS_FUTR_FX_PDNO"@)
        &&& self.symbol_name@ == required_of(value, "OVRS_FUTR_FX_ITEM_NM"@)
        &&& self.quantity@ == required_of(value, "UNPD_QTY"@)
        &&& self.average_price@ == required_of(value, "AVG_PRIC"@)
        &&& self.current_price@ == required_of(value, "PRPR"@)
        &&& self.profit_loss@ == required_of(value, "EVLU_PFLS_AMT"@)
        &&& self.profit_loss_rate@ == required_of(value, "EVLU_PFLS_RT"@)
        &&& self.side@ == required_of(value, "SLL_BUY_DVSN_CD"@)
        &&& self.currency@ == required_of(value, "CRCY_CD"@)
    }

    fn from_json(value: &serde_json::Value) -> (r: Option<Self>) {
        if !is_object(value) {
            return None;
        }
        let symbol = match required_text(value, "OVRS_FUTR_FX_PDNO") {
            Some(t) => t,
            None => {
                return None;
            },
        };
        let symbol_name = match required_text(value, "OVRS_FUTR_FX_ITEM_NM") {
            Some(t) => t,
            None => {
                return None;
            },
        };
        let quantity = match required_text(value, "UNPD_QTY") {
            Some(t) => t,
            None => {
                return None;
            },
        };
        let average_price = match required_text(value, "AVG_PRIC") {
            Some(t) => t,
            None => {
                return None;
            },
        };
        let current_price = match required_text(value, "PRPR") {
            Some(t) => t,
            None => {
                return None;
            },
        };
        let profit_loss = match required_text(value, "EVLU_PFLS_AMT") {
            Some(t) => t,
            None => {
                return None;
            },
        };
        let profit_loss_rate = match required_text(value, "EVLU_PFLS_RT") {
            Some(t) => t,
            None => {
                return None;
            },
        };
        let side = match required_text(value, "SLL_BUY_DVSN_CD") {
            Some(t) => t,
            None => {
                return None;
            },
        };
        let currency = match required_text(value, "CRCY_CD") {
            Some(t) => t,
            None => {
                return None;
            },
        };
        Some(
            UnsettledPosition {
                symbol,
                symbol_name,
                quantity,
                average_price,
                current_price,
                profit_loss,
                profit_loss_rate,
                side,
                currency,
            },
        )
    }
}

/// The deposit behind the overseas futures and options of the account.
#[derive(Debug, Clone)]
pub struct DepositInfo {
    /// Total deposit.
    pub total_deposit: String,
    /// Amount available for orders.
    pub available_amount: String,
    /// Margin.
    pub margin_amount: String,
    /// Valuation profit or loss.
    pub profit_loss: String,
    /// Code of the currency.
    pub currency: String,
    /// Total deposit, converted.
    pub foreign_deposit_total: String,
}

impl Payload for DepositInfo {
    open spec fn readable(value: serde_json::Value) -> bool {
        &&& json_is_object(value)
        &&& required_ok(value, "TOT_DPSIT_AMT"@)
        &&& required_ok(value, "ORD_PSBL_AMT"@)
        &&& required_ok(value, "MGNA_AMT"@)
        &&& required_ok(value, "EVLU_PFLS_AMT"@)
        &&& required_ok(value, "CRCY_CD"@)
        &&& required_ok(value, "FRCR_DPSIT_TOT_AMT"@)
    }

    open spec fn holds(&self, value: serde_json::Value) -> bool {
        &&& self.total_deposit@ == required_of(value, "TOT_DPSIT_AMT"@)
        &&& self.available_amount@ == required_of(value, "ORD_PSBL_AMT"@)
        &&& self.margin_amount@ == required_of(value, "MGNA_AMT"@)
        &&& self.profit_loss@ == required_of(value, "EVLU_PFLS_AMT"@)
        &&& self.currency@ == required_of(value, "CRCY_CD"@)
        &&& self.foreign_deposit_total@ == required_of(value, "FRCR_DPSIT_TOT_AMT"@)
    }

    fn from_json(value: &serde_json::Value) -> (r: Option<Self>) {
        if !is_object(value) {
            return None;
        }
        let total_deposit = match required_text(value, "TOT_DPSIT_AMT") {
            Some(t) => t,
            None => {
                return None;
            },
        };
        let available_amount = match required_text(value, "ORD_PSBL_AMT") {
            Some(t) => t,
            None => {
                return None;
            },
        };
        let margin_amount = match required_text(value, "MGNA_AMT") {
            Some(t) => t,
            None => {
                return None;
            },
        };
        let profit_loss = match required_text(value, "EVLU_PFLS_AMT") {
            Some(t) => t,
            None => {
                return None;
            },
        };
        let currency = match required_text(value, "CRCY_CD") {
            Some(t) => t,
            None => {
                return None;
            },
        };
        let foreign_deposit_total = match required_text(value, "FRCR_DPSIT_TOT_AMT") {
            Some(t) => t,
            None => {
                return None;
            },
        };
        Some(
            DepositInfo {
                total_deposit,
                available_amount,
                margin_amount,
                profit_loss,
                currency,
                foreign_deposit_total,
            },
        )
    }
}

/// One execution of an order for an overseas future or option.
#[derive(Debug, Clone)]
pub struct ExecutionRecord {
    /// Order number.
    pub order_no: String,
    /// Code of the instrument.
    pub symbol: String,
    /// Name of the instrument.
    pub symbol_name: String,
    /// Quantity executed.
    pub executed_quantity: String,
    /// Price of the execution.
    pub executed_price: String,
    /// Amount of the execution.
    pub executed_amount: String,
    /// Time of the execution.
    pub executed_time: String,
    /// Side.
    pub side: String,
    /// Whether the order opened or closed a position.
    pub order_type: String,
}

impl Payload for ExecutionRecord {
    open spec fn readable(value: serde_json::Value) -> bool {
        &&& json_is_object(value)
        &&& required_ok(value, "ODNO"@)
        &&& required_ok(value, "OVRS_FUTR_FX_PDNO"@)
        &&& required_ok(value, "OVRS_FUTR_FX_ITEM_NM"@)
        &&& required_ok(value, "CCLD_QTY"@)
        &&& required_ok(value, "CCLD_UNPR"@)
        &&& required_ok(value, "CCLD_AMT"@)
        &&& required_ok(value, "CCLD_TMD"@)
        &&& required_ok(value, "SLL_BUY_DVSN_CD"@)
        &&& required_ok(value, "ORD_DVSN"@)
    }

    open spec fn holds(&self, value: serde_json::Value) -> bool {
        &&& self.order_no@ == required_of(value, "ODNO"@)
        &&& self.symbol@ == required_of(value, "OVRS_FUTR_FX_PDNO"@)
        &&& self.symbol_name@ == required_of(value, "OVRS_FUTR_FX_ITEM_NM"@)
        &&& self.executed_quantity@ == required_of(value, "CCLD_QTY"@)
        &&& self.executed_price@ == required_of(value, "CCLD_UNPR"@)
        &&& self.executed_amount@ == required_of(value, "CCLD_AMT"@)
        &&& self.executed_time@ == required_of(value, "CCLD_TMD"@)
        &&& self.side@ == required_of(value, "SLL_BUY_DVSN_CD"@)
        &&& self.order_type@ == required_of(value, "ORD_DVSN"@)
    }

    fn from_json(value: &serde_json::Value) -> (r: Option<Self>) {
        if !is_object(value) {
            return None;
        }
        let order_no = match required_text(value, "ODNO") {
            Some(t) => t,
            None => {
                return None;
            },
        };
        let symbol = match required_text(value, "OVRS_FUTR_FX_PDNO") {
            Some(t) => t,
            None => {
                return None;
            },
        };
        let symbol_name = match required_text(value, "OVRS_FUTR_FX_ITEM_NM") {
            Some(t) => t,
            None => {
                return None;
            },
        };
        let executed_quantity = match required_text(value, "CCLD_QTY") {
            Some(t) => t,
            None => {
                return None;
            },
        };
        let executed_price = match required_text(value, "CCLD_UNPR") {
            Some(t) => t,
            None => {
                return None;
            },
        };
        let executed_amount = match required_text(value, "CCLD_AMT") {
            Some(t) => t,
            None => {
                return None;
            },
        };
        let executed_time = match required_text(value, "CCLD_TMD") {
            Some(t) => t,
            None => {
                return None;
            },
        };
        let side = match required_text(value, "SLL_BUY_DVSN_CD") {
            Some(t) => t,
            None => {
                return None;
            },
        };
        let order_type = match required_text(value, "ORD_DVSN") {
            Some(t) => t,
            None => {
                return None;
            },
        };
        Some(
            ExecutionRecord {
                order_no,
                symbol,
                symbol_name,
                executed_quantity,
                executed_price,
                executed_amount,
                executed_time,
                side,
                order_type,
            },
        )
    }
}

/// The identifier of an order by its side and by whether it opens or closes
/// a position.
pub open spec fn overseas_future_tr_id(side: OrderSide, position_type: PositionType) -> Seq<char> {
    match side {
        OrderSide::Buy => position_type.buy_tr_id_spec(),
        OrderSide::Sell => position_type.sell_tr_id_spec(),
    }
}

/// The call that [`KisClient::overseas_future_order`] makes.
pub open spec fn overseas_future_order_call(
    config: KisConfigView,
    symbol: Seq<char>,
    side: OrderSide,
    position_type: PositionType,
    price_type: PriceType,
    quantity: u32,
    limit_price: Seq<char>,
) -> DomainCallView {
    DomainCallView::Mutating {
        path: "/uapi/overseas-futureoption/v1/trading/order"@,
        tr_id: overseas_future_tr_id(side, position_type),
        body: object_text(
            overseas_future_order_members(
                config.cano(),
                config.acnt_prdt_cd(),
                symbol,
                side.code_spec(),
                price_type.code_spec(),
                decimal(quantity as nat),
                limit_price,
            ),
        ),
    }
}

/// The call that modifies or cancels an order, for a request with the given
/// members.
pub open spec fn overseas_future_modify_cancel_call(
    members: Seq<(Seq<char>, Option<Seq<char>>)>,
) -> DomainCallView {
    DomainCallView::Mutating {
        path: "/uapi/overseas-futureoption/v1/trading/order-rvsecncl"@,
        tr_id: "OTFM3005U"@,
        body: object_text(members),
    }
}

/// Whether `result` is what the body of a reply gives for an order, a
/// modification or a cancellation: the order's number and time from the
/// single result, and the remote system's message.
pub open spec fn order_result_reply(body: Seq<char>, result: KisResult<OrderResult>) -> bool {
    match json_document(body) {
        Err(e) => result matches Err(x) && x@ == (KisErrorView::Decode {
            message: parse_failure(json_error_text(e)),
            body,
        }),
        Ok(doc) => if !envelope_readable::<OverseasFutureOrderResponse>(doc) {
            result matches Err(x) && x@ == (KisErrorView::Decode { message: shape_failure(), body })
        } else if !reports_success(doc) {
            result matches Err(x) && x@ == remote_failure(doc)
        } else {
            match json_present(doc, "output"@) {
                None => result matches Err(x) && x@ == KisErrorView::MissingPayload,
                Some(single) => {
                    &&& result matches Ok(taken)
                    &&& taken.order_no@ == required_of(single, "ODNO"@)
                    &&& taken.order_date@ == required_of(single, "ORD_TMD"@)
                    &&& taken.success
                    &&& taken.message@ == required_of(doc, "msg1"@)
                },
            }
        },
    }
}

/// Whether `out` is what an order, a modification or a cancellation makes of
/// the step `raw` of its call.
pub open spec fn order_result_outcome(
    raw: OutcomeView<Seq<char>>,
    out: Outcome<OrderResult>,
) -> bool {
    match raw {
        OutcomeView::Send(request) => out matches Outcome::Send(r) && r@ == request,
        OutcomeView::Done(Err(e)) => out matches Outcome::Done(Err(x)) && x@ == e,
        OutcomeView::Done(Ok(body)) => out matches Outcome::Done(result) && order_result_reply(
            body,
            result,
        ),
    }
}

/// Reads from the body of a reply how an order was taken.
pub fn read_order_result(body: &str) -> (r: KisResult<OrderResult>)
    ensures
        order_result_reply(body@, r),
{
    match read_envelope::<OverseasFutureOrderResponse>(body) {
        Err(e) => Err(e),
        Ok(envelope) => {
            if !envelope.is_success() {
                return Err(KisError::Remote { code: envelope.msg_cd, message: envelope.msg1 });
            }
            match envelope.output {
                None => Err(KisError::MissingPayload),
                Some(output) => Ok(
                    OrderResult {
                        order_no: output.order_no,
                        order_date: output.order_time,
                        success: true,
                        message: envelope.msg1,
                    },
                ),
            }
        },
    }
}

fn finish_order_result(raw: Outcome<String>) -> (out: Outcome<OrderResult>)
    ensures
        order_result_outcome(raw@, out),
{
    match raw {
        Outcome::Send(request) => Outcome::Send(request),
        Outcome::Done(Err(e)) => Outcome::Done(Err(e)),
        Outcome::Done(Ok(body)) => Outcome::Done(read_order_result(body.as_str())),
    }
}

/// The call that [`KisClient::overseas_future_inquire_unsettled`] makes.
pub open spec fn overseas_future_inquire_unsettled_call(
    config: KisConfigView,
) -> DomainCallView {
    DomainCallView::Read {
        path: "/uapi/overseas-futureoption/v1/trading/inquire-unpd"@,
        tr_id: "OTFM3304R"@,
        query: Some(
            "CANO="@ + config.cano() + "&ACNT_PRDT_CD="@ + config.acnt_prdt_cd()
                + "&OVRS_FUTR_FX_PDNO=&CTX_AREA_FK200=&CTX_AREA_NK200="@,
        ),
    }
}

/// The call that [`KisClient::overseas_future_inquire_deposit`] makes.
pub open spec fn overseas_future_inquire_deposit_call(
    config: KisConfigView,
) -> DomainCallView {
    DomainCallView::Read {
        path: "/uapi/overseas-futureoption/v1/trading/inquire-deposit"@,
        tr_id: "OTFM3306R"@,
        query: Some(
            "CANO="@ + config.cano() + "&ACNT_PRDT_CD="@ + config.acnt_prdt_cd()
                + "&OVRS_FUTR_FX_PDNO=&WCRC_FRCR_DVSN_CD=01&NATN_CD="@,
        ),
    }
}

/// The call that [`KisClient::overseas_future_inquire_execution`] makes.
pub open spec fn overseas_future_inquire_execution_call(
    config: KisConfigView,
    start_date: Seq<char>,
    end_date: Seq<char>,
) -> DomainCallView {
    DomainCallView::Read {
        path: "/uapi/overseas-futureoption/v1/trading/inquire-ccld"@,
        tr_id: "OTFM3307R"@,
        query: Some(
            "CANO="@ + config.cano() + "&ACNT_PRDT_CD="@ + config.acnt_prdt_cd()
                + "&OVRS_FUTR_FX_PDNO=&STRT_DT="@ + start_date + "&END_DT="@ + end_date
                + "&SLL_BUY_DVSN_CD=&CCLD_NCCS_DVSN_CD=&SORT_SQN=DS&CTX_AREA_FK200=&CTX_AREA_NK200="@,
        ),
    }
}

impl KisClient {
    /// Places an order for `quantity` of the overseas future or option
    /// `symbol`.  `limit_price` is the price as it is written in the order.
    pub fn overseas_future_order(
        &mut self,
        state: &mut CallState,
        reply: Option<HttpResponse>,
        now: u64,
        symbol: &str,
        side: OrderSide,
        position_type: PositionType,
        price_type: PriceType,
        quantity: u32,
        limit_price: &str,
    ) -> (r: Outcome<OrderResult>)
        requires
            old(self)@.config.account_ready(),
        ensures
            ({
                let step = old(self)@.call(
                    old(state)@,
                    opt_response(reply),
                    now,
                    overseas_future_order_call(
                        old(self)@.config,
                        symbol@,
                        side,
                        position_type,
                        price_type,
                        quantity,
                        limit_price@,
                    ),
                );
                &&& final(self)@ == step.client
                &&& final(state)@ == step.stage
                &&& order_result_outcome(step.outcome, r)
            }),
    {
        let tr_id = match side {
            OrderSide::Buy => position_type.buy_tr_id(),
            OrderSide::Sell => position_type.sell_tr_id(),
        };
        let request = OverseasFutureOrderRequest::new(
            self.cano().to_owned(),
            self.acnt_prdt_cd().to_owned(),
            symbol.to_owned(),
            side,
            price_type,
            quantity,
            limit_price.to_owned(),
        );
        let call = DomainCall::mutating(
            "/uapi/overseas-futureoption/v1/trading/order",
            tr_id,
            request.to_json(),
        );
        finish_order_result(self.call(state, reply, now, &call))
    }

    /// Cancels the order `order_no`.
    pub fn overseas_future_cancel(
        &mut self,
        state: &mut CallState,
        reply: Option<HttpResponse>,
        now: u64,
        order_no: &str,
    ) -> (r: Outcome<OrderResult>)
        requires
            old(self)@.config.account_ready(),
        ensures
            ({
                let step = old(self)@.call(
                    old(state)@,
                    opt_response(reply),
                    now,
                    overseas_future_modify_cancel_call(
                        overseas_future_modify_cancel_members(
                            old(self)@.config.cano(),
                            old(self)@.config.acnt_prdt_cd(),
                            order_no@,
                            "02"@,
                            None,
                            None,
                        ),
                    ),
                );
                &&& final(self)@ == step.client
                &&& final(state)@ == step.stage
                &&& order_result_outcome(step.outcome, r)
            }),
    {
        let request = OverseasFutureModifyCancelRequest::cancel(
            self.cano().to_owned(),
            self.acnt_prdt_cd().to_owned(),
            order_no.to_owned(),
        );
        self.overseas_future_modify_cancel_internal(state, reply, now, request)
    }

    /// Modifies the order `order_no`: gives it a new quantity, a new limit
    /// price, or both.  `limit_price` is the price as it is written in the
    /// request.
    pub fn overseas_future_modify(
        &mut self,
        state: &mut CallState,
        reply: Option<HttpResponse>,
        now: u64,
        order_no: &str,
        quantity: Option<u32>,
        limit_price: Option<String>,
    ) -> (r: Outcome<OrderResult>)
        requires
            old(self)@.config.account_ready(),
        ensures
            ({
                let step = old(self)@.call(
                    old(state)@,
                    opt_response(reply),
                    now,
                    overseas_future_modify_cancel_call(
                        overseas_future_modify_cancel_members(
                            old(self)@.config.cano(),
                            old(self)@.config.acnt_prdt_cd(),
                            order_no@,
                            "01"@,
                            opt_decimal(quantity),
                            opt_view(limit_price),
                        ),
                    ),
                );
                &&& final(self)@ == step.client
                &&& final(state)@ == step.stage
                &&& order_result_outcome(step.outcome, r)
            }),
    {
        let request = OverseasFutureModifyCancelRequest::modify(
            self.cano().to_owned(),
            self.acnt_prdt_cd().to_owned(),
            order_no.to_owned(),
            quantity,
            limit_price,
        );
        self.overseas_future_modify_cancel_internal(state, reply, now, request)
    }

    /// Sends a modification or a cancellation.
    pub fn overseas_future_modify_cancel_internal(
        &mut self,
        state: &mut CallState,
        reply: Option<HttpResponse>,
        now: u64,
        request: OverseasFutureModifyCancelRequest,
    ) -> (r: Outcome<OrderResult>)
        ensures
            ({
                let step = old(self)@.call(
                    old(state)@,
                    opt_response(reply),
                    now,
                    overseas_future_modify_cancel_call(request.members()),
                );
                &&& final(self)@ == step.client
                &&& final(state)@ == step.stage
                &&& order_result_outcome(step.outcome, r)
            }),
    {
        let call = DomainCall::mutating(
            "/uapi/overseas-futureoption/v1/trading/order-rvsecncl",
            MODIFY_CANCEL,
            request.to_json(),
        );
        finish_order_result(self.call(state, reply, now, &call))
    }

    /// Asks for the open positions in overseas futures and options.
    pub fn overseas_future_inquire_unsettled(
        &mut self,
        state: &mut CallState,
        reply: Option<HttpResponse>,
        now: u64,
    ) -> (r: Outcome<Vec<UnsettledPosition>>)
        requires
            old(self)@.config.account_ready(),
        ensures
            ({
                let step = old(self)@.call(
                    old(state)@,
                    opt_response(reply),
                    now,
                    overseas_future_inquire_unsettled_call(old(self)@.config),
                );
                &&& final(self)@ == step.client
                &&& final(state)@ == step.stage
                &&& list_outcome(step.outcome, r)
            }),
    {
        let mut query = String::from_str("CANO=");
        query.append(self.cano());
        query.append("&ACNT_PRDT_CD=");
        query.append(self.acnt_prdt_cd());
        query.append("&OVRS_FUTR_FX_PDNO=&CTX_AREA_FK200=&CTX_AREA_NK200=");
        let call = DomainCall::read(
            "/uapi/overseas-futureoption/v1/trading/inquire-unpd",
            INQUIRE_UNSETTLED,
            Some(query.as_str()),
        );
        self.call_list(state, reply, now, &call)
    }

    /// Asks for the deposit behind the overseas futures and options.
    pub fn overseas_future_inquire_deposit(
        &mut self,
        state: &mut CallState,
        reply: Option<HttpResponse>,
        now: u64,
    ) -> (r: Outcome<DepositInfo>)
        requires
            old(self)@.config.account_ready(),
        ensures
            ({
                let step = old(self)@.call(
                    old(state)@,
                    opt_response(reply),
                    now,
                    overseas_future_inquire_deposit_call(old(self)@.config),
                );
                &&& final(self)@ == step.client
                &&& final(state)@ == step.stage
                &&& single_outcome(step.outcome, r)
            }),
    {
        let mut query = String::from_str("CANO=");
        query.append(self.cano());
        query.append("&ACNT_PRDT_CD=");
        query.append(self.acnt_prdt_cd());
        query.append("&OVRS_FUTR_FX_PDNO=&WCRC_FRCR_DVSN_CD=01&NATN_CD=");
        let call = DomainCall::read(
            "/uapi/overseas-futureoption/v1/trading/inquire-deposit",
            INQUIRE_DEPOSIT,
            Some(query.as_str()),
        );
        self.call_single(state, reply, now, &call)
    }

    /// Asks for the executions from `start_date` to `end_date`, both written as
    /// YYYYMMDD.
    pub fn overseas_future_inquire_execution(
        &mut self,
        state: &mut CallState,
        reply: Option<HttpResponse>,
        now: u64,
        start_date: &str,
        end_date: &str,
    ) -> (r: Outcome<Vec<ExecutionRecord>>)
        requires
            old(self)@.config.account_ready(),
        ensures
            ({
                let step = old(self)@.call(
                    old(state)@,
                    opt_response(reply),
                    now,
                    overseas_future_inquire_execution_call(
                        old(self)@.config,
                        start_date@,
                        end_date@,
                    ),
                );
                &&& final(self)@ == step.client
                &&& final(state)@ == step.stage
                &&& list_outcome(step.outcome, r)
            }),
    {
        let mut query = String::from_str("CANO=");
        query.append(self.cano());
        query.append("&ACNT_PRDT_CD=");
        query.append(self.acnt_prdt_cd());
        query.append("&OVRS_FUTR_FX_PDNO=&STRT_DT=");
        query.append(start_date);
        query.append("&END_DT=");
        query.append(end_date);
        query.append(
            "&SLL_BUY_DVSN_CD=&CCLD_NCCS_DVSN_CD=&SORT_SQN=DS&CTX_AREA_FK200=&CTX_AREA_NK200=",
        );
        let call = DomainCall::read(
            "/uapi/overseas-futureoption/v1/trading/inquire-ccld",
            INQUIRE_EXECUTION,
            Some(query.as_str()),
        );
        self.call_list(state, reply, now, &call)
    }
}

} // verus!
