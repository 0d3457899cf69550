//! Domestic stocks: cash orders, their revision and cancellation, the
//! balance of the account and the current price of a stock.

use vstd::prelude::*;
use crate::http::HttpResponse;
use crate::json::{
    is_object, items, json_document, json_error_text, json_is_object, json_items, json_present,
    members_view, object_text, optional_of, optional_ok, optional_text, present, required_ok,
    required_text, text_member, write_object, Member,
};
use crate::kis::types::{
    all_hold, all_readable, parse_failure, read_all, remote_failure, reports_success, shape_failure,
    single_outcome, KisConfigView, KisError, KisErrorView, KisResult, OrderType, Outcome,
    OutcomeView, Payload,
};
use crate::kis::{opt_response, tr_id_of, CallState, DomainCall, DomainCallView, KisClient};
use crate::text::{decimal, decimal_text, joined, opt_view, same_text};

verus! {

/// A cash order, to buy or to sell.
#[derive(Debug, Clone)]
pub struct CashOrderRequest {
    /// Account: the first eight digits of the account number.
    pub cano: String,
    /// Product code: the last two digits of the account number.
    pub acnt_prdt_cd: String,
    /// Stock code, such as 005930.
    pub pdno: String,
    /// Order division: 00 limit, 01 market, 02 conditional limit, 03 best limit, 04 priority limit, 05 before the market, 06 after the market.
    pub ord_dvsn: String,
    /// Quantity.
    pub ord_qty: String,
    /// Price of one share; 0 for a market order.
    pub ord_unpr: String,
}

/// The members of a [`CashOrderRequest`] as they are written, in their order.
pub open spec fn cash_order_members(
    cano: Seq<char>,
    acnt_prdt_cd: Seq<char>,
    pdno: Seq<char>,
    ord_dvsn: Seq<char>,
    ord_qty: Seq<char>,
    ord_unpr: Seq<char>,
) -> Seq<(Seq<char>, Option<Seq<char>>)> {
    seq![
        ("CANO"@, Some(cano)),
        ("ACNT_PRDT_CD"@, Some(acnt_prdt_cd)),
        ("PDNO"@, Some(pdno)),
        ("ORD_DVSN"@, Some(ord_dvsn)),
        ("ORD_QTY"@, Some(ord_qty)),
        ("ORD_UNPR"@, Some(ord_unpr)),
    ]
}

impl CashOrderRequest {
    /// The members of the request as they are written, in their order.
    pub open spec fn members(&self) -> Seq<(Seq<char>, Option<Seq<char>>)> {
        cash_order_members(
            self.cano@,
            self.acnt_prdt_cd@,
            self.pdno@,
            self.ord_dvsn@,
            self.ord_qty@,
            self.ord_unpr@,
        )
    }

    /// The request as the JSON text that is sent and signed.
    pub fn to_json(&self) -> (r: String)
        ensures
            r@ == object_text(self.members()),
    {
        let mut members: Vec<Member> = Vec::new();
        members.push(text_member("CANO", self.cano.as_str()));
        members.push(text_member("ACNT_PRDT_CD", self.acnt_prdt_cd.as_str()));
        members.push(text_member("PDNO", self.pdno.as_str()));
        members.push(text_member("ORD_DVSN", self.ord_dvsn.as_str()));
        members.push(text_member("ORD_QTY", self.ord_qty.as_str()));
        members.push(text_member("ORD_UNPR", self.ord_unpr.as_str()));
        assert(members_view(members@) =~= self.members());
        write_object(&members)
    }
}

/// What the remote system answers to a cash order.
#[derive(Debug, Clone)]
pub struct CashOrderResponse {
    /// Order number.
    pub odno: Option<String>,
    /// Time of the order.
    pub ord_tmd: Option<String>,
}

impl Payload for CashOrderResponse {
    open spec fn readable(value: serde_json::Value) -> bool {
        &&& json_is_object(value)
        &&& optional_ok(value, "ODNO"@)
        &&& optional_ok(value, "ORD_TMD"@)
    }

    open spec fn holds(&self, value: serde_json::Value) -> bool {
        &&& opt_view(self.odno) == optional_of(value, "ODNO"@)
        &&& opt_view(self.ord_tmd) == optional_of(value, "ORD_TMD"@)
    }

    fn from_json(value: &serde_json::Value) -> (r: Option<Self>) {
        if !is_object(value) {
            return None;
        }
        let odno = match optional_text(value, "ODNO") {
            Ok(t) => t,
            Err(_) => {
                return None;
            },
        };
        let ord_tmd = match optional_text(value, "ORD_TMD") {
            Ok(t) => t,
            Err(_) => {
                return None;
            },
        };
        Some(CashOrderResponse { odno, ord_tmd })
    }
}

/// A revision or a cancellation of an order.
#[derive(Debug, Clone)]
pub struct OrderReviseRequest {
    /// Account: the first eight digits of the account number.
    pub cano: String,
    /// Product code: the last two digits of the account number.
    pub acnt_prdt_cd: String,
    /// Number of the organisation that forwarded the order to the exchange; left empty.
    pub krx_fwdg_ord_orgno: String,
    /// Number of the order to revise or cancel.
    pub orgn_odno: String,
    /// Order division; 00 for a limit order.
    pub ord_dvsn: String,
    /// 01 to revise, 02 to cancel.
    pub rvse_cncl_dvsn_cd: String,
    /// Quantity.
    pub ord_qty: String,
    /// Price of one share.
    pub ord_unpr: String,
    /// Y where all that is left of the order is meant, else N.
    pub qty_all_ord_yn: String,
}

/// The members of a [`OrderReviseRequest`] as they are written, in their order.
pub open spec fn order_revise_members(
    cano: Seq<char>,
    acnt_prdt_cd: Seq<char>,
    krx_fwdg_ord_orgno: Seq<char>,
    orgn_odno: Seq<char>,
    ord_dvsn: Seq<char>,
    rvse_cncl_dvsn_cd: Seq<char>,
    ord_qty: Seq<char>,
    ord_unpr: Seq<char>,
    qty_all_ord_yn: Seq<char>,
) -> Seq<(Seq<char>, Option<Seq<char>>)> {
    seq![
        ("CANO"@, Some(cano)),
        ("ACNT_PRDT_CD"@, Some(acnt_prdt_cd)),
        ("KRX_FWDG_ORD_ORGNO"@, Some(krx_fwdg_ord_orgno)),
        ("ORGN_ODNO"@, Some(orgn_odno)),
        ("ORD_DVSN"@, Some(ord_dvsn)),
        ("RVSE_CNCL_DVSN_CD"@, Some(rvse_cncl_dvsn_cd)),
        ("ORD_QTY"@, Some(ord_qty)),
        ("ORD_UNPR"@, Some(ord_unpr)),
        ("QTY_ALL_ORD_YN"@, Some(qty_all_ord_yn)),
    ]
}

impl OrderReviseRequest {
    /// The members of the request as they are written, in their order.
    pub open spec fn members(&self) -> Seq<(Seq<char>, Option<Seq<char>>)> {
        order_revise_members(
            self.cano@,
            self.acnt_prdt_cd@,
            self.krx_fwdg_ord_orgno@,
            self.orgn_odno@,
            self.ord_dvsn@,
            self.rvse_cncl_dvsn_cd@,
            self.ord_qty@,
            self.ord_unpr@,
            self.qty_all_ord_yn@,
        )
    }

    /// The request as the JSON text that is sent and signed.
    pub fn to_json(&self) -> (r: String)
        ensures
            r@ == object_text(self.members()),
    {
        let mut members: Vec<Member> = Vec::new();
        members.push(text_member("CANO", self.cano.as_str()));
        members.push(text_member("ACNT_PRDT_CD", self.acnt_prdt_cd.as_str()));
        members.push(text_member("KRX_FWDG_ORD_ORGNO", self.krx_fwdg_ord_orgno.as_str()));
        members.push(text_member("ORGN_ODNO", self.orgn_odno.as_str()));
        members.push(text_member("ORD_DVSN", self.ord_dvsn.as_str()));
        members.push(text_member("RVSE_CNCL_DVSN_CD", self.rvse_cncl_dvsn_cd.as_str()));
        members.push(text_member("ORD_QTY", self.ord_qty.as_str()));
        members.push(text_member("ORD_UNPR", self.ord_unpr.as_str()));
        members.push(text_member("QTY_ALL_ORD_YN", self.qty_all_ord_yn.as_str()));
        assert(members_view(members@) =~= self.members());
        write_object(&members)
    }
}

/// What the remote system answers to a revision or a cancellation.
#[derive(Debug, Clone)]
pub struct OrderReviseResponse {
    /// Order number.
    pub odno: Option<String>,
    /// Time of the order.
    pub ord_tmd: Option<String>,
}

impl Payload for OrderReviseResponse {
    open spec fn readable(value: serde_json::Value) -> bool {
        &&& json_is_object(value)
        &&& optional_ok(value, "ODNO"@)
        &&& optional_ok(value, "ORD_TMD"@)
    }

    open spec fn holds(&self, value: serde_json::Value) -> bool {
        &&& opt_view(self.odno) == optional_of(value, "ODNO"@)
        &&& opt_view(self.ord_tmd) == optional_of(value, "ORD_TMD"@)
    }

    fn from_json(value: &serde_json::Value) -> (r: Option<Self>) {
        if !is_object(value) {
            return None;
        }
        let odno = match optional_text(value, "ODNO") {
            Ok(t) => t,
            Err(_) => {
                return None;
            },
        };
        let ord_tmd = match optional_text(value, "ORD_TMD") {
            Ok(t) => t,
            Err(_) => {
                return None;
            },
        };
        Some(OrderReviseResponse { odno, ord_tmd })
    }
}

/// One holding of the account.
#[derive(Debug, Clone)]
pub struct BalanceItem {
    /// Stock code.
    pub pdno: Option<String>,
    /// Name of the stock.
    pub prdt_name: Option<String>,
    /// Quantity held.
    pub hldg_qty: Option<String>,
    /// Average price of purchase.
    pub pchs_avg_pric: Option<String>,
    /// Current price.
    pub prpr: Option<String>,
    /// Valuation profit or loss.
    pub evlu_pfls_amt: Option<String>,
    /// Valuation profit or loss, as a rate.
    pub evlu_pfls_rt: Option<String>,
    /// Valuation.
    pub evlu_amt: Option<String>,
}

impl Payload for BalanceItem {
    open spec fn readable(value: serde_json::Value) -> bool {
        &&& json_is_object(value)
        &&& optional_ok(value, "pdno"@)
        &&& optional_ok(value, "prdt_name"@)
        &&& optional_ok(value, "hldg_qty"@)
        &&& optional_ok(value, "pchs_avg_pric"@)
        &&& optional_ok(value, "prpr"@)
        &&& optional_ok(value, "evlu_pfls_amt"@)
        &&& optional_ok(value, "evlu_pfls_rt"@)
        &&& optional_ok(value, "evlu_amt"@)
    }

    open spec fn holds(&self, value: serde_json::Value) -> bool {
        &&& opt_view(self.pdno) == optional_of(value, "pdno"@)
        &&& opt_view(self.prdt_name) == optional_of(value, "prdt_name"@)
        &&& opt_view(self.hldg_qty) == optional_of(value, "hldg_qty"@)
        &&& opt_view(self.pchs_avg_pric) == optional_of(value, "pchs_avg_pric"@)
        &&& opt_view(self.prpr) == optional_of(value, "prpr"@)
        &&& opt_view(self.evlu_pfls_amt) == optional_of(value, "evlu_pfls_amt"@)
        &&& opt_view(self.evlu_pfls_rt) == optional_of(value, "evlu_pfls_rt"@)
        &&& opt_view(self.evlu_amt) == optional_of(value, "evlu_amt"@)
    }

    fn from_json(value: &serde_json::Value) -> (r: Option<Self>) {
        if !is_object(value) {
            return None;
        }
        let pdno = match optional_text(value, "pdno") {
            Ok(t) => t,
            Err(_) => {
                return None;
            },
        };
        let prdt_name = match optional_text(value, "prdt_name") {
            Ok(t) => t,
            Err(_) => {
                return None;
            },
        };
        let hldg_qty = match optional_text(value, "hldg_qty") {
            Ok(t) => t,
            Err(_) => {
                return None;
            },
        };
        let pchs_avg_pric = match optional_text(value, "pchs_avg_pric") {
            Ok(t) => t,
            Err(_) => {
                return None;
            },
        };
        let prpr = match optional_text(value, "prpr") {
            Ok(t) => t,
            Err(_) => {
                return None;
            },
        };
        let evlu_pfls_amt = match optional_text(value, "evlu_pfls_amt") {
            Ok(t) => t,
            Err(_) => {
                return None;
            },
        };
        let evlu_pfls_rt = match optional_text(value, "evlu_pfls_rt") {
            Ok(t) => t,
            Err(_) => {
                return None;
            },
        };
        let evlu_amt = match optional_text(value, "evlu_amt") {
            Ok(t) => t,
            Err(_) => {
                return None;
            },
        };
        Some(
            BalanceItem {
                pdno,
                prdt_name,
                hldg_qty,
                pchs_avg_pric,
                prpr,
                evlu_pfls_amt,
                evlu_pfls_rt,
                evlu_amt,
            },
        )
    }
}

/// The totals of the account.
#[derive(Debug, Clone)]
pub struct BalanceSummary {
    /// Total valuation.
    pub tot_evlu_amt: Option<String>,
    /// Total deposit.
    pub dnca_tot_amt: Option<String>,
    /// Cash available for orders.
    pub ord_psbl_cash: Option<String>,
    /// Total valuation profit or loss.
    pub evlu_pfls_smtl_amt: Option<String>,
    /// Total valuation profit or loss, as a rate.
    pub evlu_pfls_rt: Option<String>,
}

impl Payload for BalanceSummary {
    open spec fn readable(value: serde_json::Value) -> bool {
        &&& json_is_object(value)
        &&& optional_ok(value, "tot_evlu_amt"@)
        &&& optional_ok(value, "dnca_tot_amt"@)
        &&& optional_ok(value, "ord_psbl_cash"@)
        &&& optional_ok(value, "evlu_pfls_smtl_amt"@)
        &&& optional_ok(value, "evlu_pfls_rt"@)
    }

    open spec fn holds(&self, value: serde_json::Value) -> bool {
        &&& opt_view(self.tot_evlu_amt) == optional_of(value, "tot_evlu_amt"@)
        &&& opt_view(self.dnca_tot_amt) == optional_of(value, "dnca_tot_amt"@)
        &&& opt_view(self.ord_psbl_cash) == optional_of(value, "ord_psbl_cash"@)
        &&& opt_view(self.evlu_pfls_smtl_amt) == optional_of(value, "evlu_pfls_smtl_amt"@)
        &&& opt_view(self.evlu_pfls_rt) == optional_of(value, "evlu_pfls_rt"@)
    }

    fn from_json(value: &serde_json::Value) -> (r: Option<Self>) {
        if !is_object(value) {
            return None;
        }
        let tot_evlu_amt = match optional_text(value, "tot_evlu_amt") {
            Ok(t) => t,
            Err(_) => {
                return None;
            },
        };
        let dnca_tot_amt = match optional_text(value, "dnca_tot_amt") {
            Ok(t) => t,
            Err(_) => {
                return None;
            },
        };
        let ord_psbl_cash = match optional_text(value, "ord_psbl_cash") {
            Ok(t) => t,
            Err(_) => {
                return None;
            },
        };
        let evlu_pfls_smtl_amt = match optional_text(value, "evlu_pfls_smtl_amt") {
            Ok(t) => t,
            Err(_) => {
                return None;
            },
        };
        let evlu_pfls_rt = match optional_text(value, "evlu_pfls_rt") {
            Ok(t) => t,
            Err(_) => {
                return None;
            },
        };
        Some(
            BalanceSummary {
                tot_evlu_amt,
                dnca_tot_amt,
                ord_psbl_cash,
                evlu_pfls_smtl_amt,
                evlu_pfls_rt,
            },
        )
    }
}

impl BalanceSummary {
    /// Whether the summary holds nothing.
    pub open spec fn is_blank(&self) -> bool {
        &&& self.tot_evlu_amt is None
        &&& self.dnca_tot_amt is None
        &&& self.ord_psbl_cash is None
        &&& self.evlu_pfls_smtl_amt is None
        &&& self.evlu_pfls_rt is None
    }

    /// A summary that holds nothing.
    pub fn blank() -> (r: BalanceSummary)
        ensures
            r.is_blank(),
    {
        BalanceSummary {
            tot_evlu_amt: None,
            dnca_tot_amt: None,
            ord_psbl_cash: None,
            evlu_pfls_smtl_amt: None,
            evlu_pfls_rt: None,
        }
    }
}

/// The balance of the account: its holdings and its totals.
#[derive(Debug, Clone)]
pub struct BalanceResponse {
    /// The holdings.
    pub output1: Option<Vec<BalanceItem>>,
    /// The totals.
    pub output2: Option<BalanceSummary>,
}

/// The current price of a stock.
#[derive(Debug, Clone)]
pub struct CurrentPriceResponse {
    /// Stock code.
    pub stck_shrn_iscd: Option<String>,
    /// Current price.
    pub stck_prpr: Option<String>,
    /// Change from the day before.
    pub prdy_vrss: Option<String>,
    /// Change from the day before, as a rate.
    pub prdy_ctrt: Option<String>,
    /// Accumulated volume.
    pub acml_vol: Option<String>,
    /// Accumulated turnover.
    pub acml_tr_pbmn: Option<String>,
    /// Opening price.
    pub stck_oprc: Option<String>,
    /// Highest price.
    pub stck_hgpr: Option<String>,
    /// Lowest price.
    pub stck_lwpr: Option<String>,
}

impl Payload for CurrentPriceResponse {
    open spec fn readable(value: serde_json::Value) -> bool {
        &&& json_is_object(value)
        &&& optional_ok(value, "stck_shrn_iscd"@)
        &&& optional_ok(value, "stck_prpr"@)
        &&& optional_ok(value, "prdy_vrss"@)
        &&& optional_ok(value, "prdy_ctrt"@)
        &&& optional_ok(value, "acml_vol"@)
        &&& optional_ok(value, "acml_tr_pbmn"@)
        &&& optional_ok(value, "stck_oprc"@)
        &&& optional_ok(value, "stck_hgpr"@)
        &&& optional_ok(value, "stck_lwpr"@)
    }

    open spec fn holds(&self, value: serde_json::Value) -> bool {
        &&& opt_view(self.stck_shrn_iscd) == optional_of(value, "stck_shrn_iscd"@)
        &&& opt_view(self.stck_prpr) == optional_of(value, "stck_prpr"@)
        &&& opt_view(self.prdy_vrss) == optional_of(value, "prdy_vrss"@)
        &&& opt_view(self.prdy_ctrt) == optional_of(value, "prdy_ctrt"@)
        &&& opt_view(self.acml_vol) == optional_of(value, "acml_vol"@)
        &&& opt_view(self.acml_tr_pbmn) == optional_of(value, "acml_tr_pbmn"@)
        &&& opt_view(self.stck_oprc) == optional_of(value, "stck_oprc"@)
        &&& opt_view(self.stck_hgpr) == optional_of(value, "stck_hgpr"@)
        &&& opt_view(self.stck_lwpr) == optional_of(value, "stck_lwpr"@)
    }

    fn from_json(value: &serde_json::Value) -> (r: Option<Self>) {
        if !is_object(value) {
            return None;
        }
        let stck_shrn_iscd = match optional_text(value, "stck_shrn_iscd") {
            Ok(t) => t,
            Err(_) => {
                return None;
            },
        };
        let stck_prpr = match optional_text(value, "stck_prpr") {
            Ok(t) => t,
            Err(_) => {
                return None;
            },
        };
        let prdy_vrss = match optional_text(value, "prdy_vrss") {
            Ok(t) => t,
            Err(_) => {
                return None;
            },
        };
        let prdy_ctrt = match optional_text(value, "prdy_ctrt") {
            Ok(t) => t,
            Err(_) => {
                return None;
            },
        };
        let acml_vol = match optional_text(value, "acml_vol") {
            Ok(t) => t,
            Err(_) => {
                return None;
            },
        };
        let acml_tr_pbmn = match optional_text(value, "acml_tr_pbmn") {
            Ok(t) => t,
            Err(_) => {
                return None;
            },
        };
        let stck_oprc = match optional_text(value, "stck_oprc") {
            Ok(t) => t,
            Err(_) => {
                return None;
            },
        };
        let stck_hgpr = match optional_text(value, "stck_hgpr") {
            Ok(t) => t,
            Err(_) => {
                return None;
            },
        };
        let stck_lwpr = match optional_text(value, "stck_lwpr") {
            Ok(t) => t,
            Err(_) => {
                return None;
            },
        };
        Some(
            CurrentPriceResponse {
                stck_shrn_iscd,
                stck_prpr,
                prdy_vrss,
                prdy_ctrt,
                acml_vol,
                acml_tr_pbmn,
                stck_oprc,
                stck_hgpr,
                stck_lwpr,
            },
        )
    }
}

/// The call that [`KisClient::domestic_buy`] makes.
pub open spec fn domestic_buy_call(
    config: KisConfigView,
    symbol: Seq<char>,
    quantity: u32,
    price: u32,
    order_type: OrderType,
) -> DomainCallView {
    DomainCallView::Mutating {
        path: "/uapi/domestic-stock/v1/trading/order-cash"@,
        tr_id: tr_id_of(config.is_paper, "TTTC0802U"@, "VTTC0802U"@),
        body: object_text(
            cash_order_members(
                config.cano(),
                config.acnt_prdt_cd(),
                symbol,
                order_type.code_spec(),
                decimal(quantity as nat),
                decimal(price as nat),
            ),
        ),
    }
}

/// The call that [`KisClient::domestic_sell`] makes.
pub open spec fn domestic_sell_call(
    config: KisConfigView,
    symbol: Seq<char>,
    quantity: u32,
    price: u32,
    order_type: OrderType,
) -> DomainCallView {
    DomainCallView::Mutating {
        path: "/uapi/domestic-stock/v1/trading/order-cash"@,
        tr_id: tr_id_of(config.is_paper, "TTTC0801U"@, "VTTC0801U"@),
        body: object_text(
            cash_order_members(
                config.cano(),
                config.acnt_prdt_cd(),
                symbol,
                order_type.code_spec(),
                decimal(quantity as nat),
                decimal(price as nat),
            ),
        ),
    }
}

/// The call that [`KisClient::domestic_revise_order`] makes.
pub open spec fn domestic_revise_order_call(
    config: KisConfigView,
    order_no: Seq<char>,
    quantity: u32,
    price: u32,
    order_type: OrderType,
) -> DomainCallView {
    DomainCallView::Mutating {
        path: "/uapi/domestic-stock/v1/trading/order-rvsecncl"@,
        tr_id: "TTTC0803U"@,
        body: object_text(
            order_revise_members(
                config.cano(),
                config.acnt_prdt_cd(),
                ""@,
                order_no,
                order_type.code_spec(),
                "01"@,
                decimal(quantity as nat),
                decimal(price as nat),
                "N"@,
            ),
        ),
    }
}

/// The call that [`KisClient::domestic_cancel_order`] makes.
pub open spec fn domestic_cancel_order_call(
    config: KisConfigView,
    order_no: Seq<char>,
    quantity: u32,
) -> DomainCallView {
    DomainCallView::Mutating {
        path: "/uapi/domestic-stock/v1/trading/order-rvsecncl"@,
        tr_id: "TTTC0803U"@,
        body: object_text(
            order_revise_members(
                config.cano(),
                config.acnt_prdt_cd(),
                ""@,
                order_no,
                "00"@,
                "02"@,
                decimal(quantity as nat),
                "0"@,
                if quantity == 0 {
                    "Y"@
                } else {
                    "N"@
                },
            ),
        ),
    }
}

/// The call that [`KisClient::domestic_current_price`] makes.
pub open spec fn domestic_current_price_call(
    config: KisConfigView,
    symbol: Seq<char>,
) -> DomainCallView {
    DomainCallView::Read {
        path: "/uapi/domestic-stock/v1/quotations/inquire-price"@,
        tr_id: "FHKST01010100"@,
        query: Some("FID_COND_MRKT_DIV_CODE=J&FID_INPUT_ISCD="@ + symbol),
    }
}

/// The call that [`KisClient::domestic_balance`] makes.
pub open spec fn domestic_balance_call(config: KisConfigView) -> DomainCallView {
    DomainCallView::Read {
        path: "/uapi/domestic-stock/v1/trading/inquire-balance"@,
        tr_id: tr_id_of(config.is_paper, "TTTC8434R"@, "VTTC8434R"@),
        query: Some(
            "CANO="@ + config.cano() + "&ACNT_PRDT_CD="@ + config.acnt_prdt_cd()
                + "&AFHR_FLPR_YN=N&INQR_DVSN=02&UNPR_DVSN=01&FUND_STTL_ICLD_YN=N&FNCG_AMT_AUTO_RDPT_YN=N&PRCS_DVSN=00&CTX_AREA_FK100=&CTX_AREA_NK100="@,
        ),
    }
}

/// Whether what `doc` holds under `key`, if anything, is an array of which
/// each element can be read as a `T`.
pub open spec fn rows_readable<T: Payload>(doc: serde_json::Value, key: Seq<char>) -> bool {
    json_present(doc, key) matches Some(list) ==> json_items(list) matches Some(values)
        && all_readable::<T>(values)
}

/// Whether the JSON document of a balance reply can be read: it is an
/// object, its three codes are strings, and what it holds under `output1` and
/// `output2` are an array of holdings and an array of totals.
pub open spec fn balance_readable(doc: serde_json::Value) -> bool {
    &&& json_is_object(doc)
    &&& required_ok(doc, "rt_cd"@)
    &&& required_ok(doc, "msg_cd"@)
    &&& required_ok(doc, "msg1"@)
    &&& rows_readable::<BalanceItem>(doc, "output1"@)
    &&& rows_readable::<BalanceSummary>(doc, "output2"@)
}

/// Whether `rows` are the holdings that a balance reply lists: one for each
/// element of `output1`, none where there is no `output1`.
pub open spec fn balance_rows(doc: serde_json::Value, rows: Seq<BalanceItem>) -> bool {
    match json_present(doc, "output1"@) {
        Some(list) => all_hold(rows, json_items(list)->Some_0),
        None => rows.len() == 0,
    }
}

/// Whether `summary` holds the totals of a balance reply: what the first
/// element of `output2` says, nothing where there is none.
pub open spec fn balance_totals(doc: serde_json::Value, summary: BalanceSummary) -> bool {
    match json_present(doc, "output2"@) {
        Some(list) => if json_items(list)->Some_0.len() > 0 {
            summary.holds(json_items(list)->Some_0[0])
        } else {
            summary.is_blank()
        },
        None => summary.is_blank(),
    }
}

/// Whether `result` is what the body of a balance reply gives.
pub open spec fn balance_reply(
    body: Seq<char>,
    result: KisResult<(Vec<BalanceItem>, BalanceSummary)>,
) -> bool {
    match json_document(body) {
        Err(e) => result matches Err(x) && x@ == (KisErrorView::Decode {
            message: parse_failure(json_error_text(e)),
            body,
        }),
        Ok(doc) => if !balance_readable(doc) {
            result matches Err(x) && x@ == (KisErrorView::Decode { message: shape_failure(), body })
        } else if !reports_success(doc) {
            result matches Err(x) && x@ == remote_failure(doc)
        } else {
            result matches Ok(pair) && balance_rows(doc, pair.0@) && balance_totals(doc, pair.1)
        },
    }
}

/// Whether `out` is what the balance operation makes of the step `raw` of
/// its call.
pub open spec fn balance_outcome(
    raw: OutcomeView<Seq<char>>,
    out: Outcome<(Vec<BalanceItem>, BalanceSummary)>,
) -> bool {
    match raw {
        OutcomeView::Send(request) => out matches Outcome::Send(r) && r@ == request,
        OutcomeView::Done(Err(e)) => out matches Outcome::Done(Err(x)) && x@ == e,
        OutcomeView::Done(Ok(body)) => out matches Outcome::Done(result) && balance_reply(
            body,
            result,
        ),
    }
}

fn shape_error(body: &str) -> (e: KisError)
    ensures
        e@ == (KisErrorView::Decode { message: shape_failure(), body: body@ }),
{
    KisError::Decode {
        message: "Failed to parse response: unexpected shape".to_owned(),
        body: body.to_owned(),
    }
}

fn read_rows<T: Payload>(doc: &serde_json::Value, key: &str) -> (r: Option<Option<Vec<T>>>)
    ensures
        r is Some <==> rows_readable::<T>(*doc, key@),
        r matches Some(Some(rows)) ==> json_present(*doc, key@) matches Some(list) && all_hold(
            rows@,
            json_items(list)->Some_0,
        ),
        r matches Some(None) ==> json_present(*doc, key@) is None,
{
    match present(doc, key) {
        None => Some(None),
        Some(list) => match items(list) {
            None => None,
            Some(values) => match read_all::<T>(values) {
                None => None,
                Some(rows) => Some(Some(rows)),
            },
        },
    }
}

/// Reads the body of a balance reply: the holdings, and the totals.
///
/// A reply without holdings is a balance without rows, and one without
/// totals has a summary that holds nothing.
pub fn read_balance(body: &str) -> (r: KisResult<(Vec<BalanceItem>, BalanceSummary)>)
    ensures
        balance_reply(body@, r),
{
    let doc = match crate::json::parse(body) {
        Err(e) => {
            let detail = crate::json::error_text(&e);
            return Err(
                KisError::Decode {
                    message: joined("Failed to parse response: ", detail.as_str()),
                    body: body.to_owned(),
                },
            );
        },
        Ok(doc) => doc,
    };
    if !is_object(&doc) {
        return Err(shape_error(body));
    }
    let rt_cd = match required_text(&doc, "rt_cd") {
        Some(t) => t,
        None => {
            return Err(shape_error(body));
        },
    };
    let msg_cd = match required_text(&doc, "msg_cd") {
        Some(t) => t,
        None => {
            return Err(shape_error(body));
        },
    };
    let msg1 = match required_text(&doc, "msg1") {
        Some(t) => t,
        None => {
            return Err(shape_error(body));
        },
    };
    let output1 = match read_rows::<BalanceItem>(&doc, "output1") {
        Some(rows) => rows,
        None => {
            return Err(shape_error(body));
        },
    };
    let output2 = match read_rows::<BalanceSummary>(&doc, "output2") {
        Some(rows) => rows,
        None => {
            return Err(shape_error(body));
        },
    };
    if !same_text(rt_cd.as_str(), "0") {
        return Err(KisError::Remote { code: msg_cd, message: msg1 });
    }
    let rows = match output1 {
        Some(rows) => rows,
        None => Vec::new(),
    };
    let summary = match output2 {
        Some(mut totals) => if totals.len() > 0 {
            totals.swap_remove(0)
        } else {
            BalanceSummary::blank()
        },
        None => BalanceSummary::blank(),
    };
    Ok((rows, summary))
}

impl KisClient {
    /// Orders to buy `quantity` shares of `symbol` for cash, at `price` a share
    /// (0 for a market order).
    pub fn domestic_buy(
        &mut self,
        state: &mut CallState,
        reply: Option<HttpResponse>,
        now: u64,
        symbol: &str,
        quantity: u32,
        price: u32,
        order_type: OrderType,
    ) -> (r: Outcome<CashOrderResponse>)
        requires
            old(self)@.config.account_ready(),
        ensures
            ({
                let step = old(self)@.call(
                    old(state)@,
                    opt_response(reply),
                    now,
                    domestic_buy_call(old(self)@.config, symbol@, quantity, price, order_type),
                );
                &&& final(self)@ == step.client
                &&& final(state)@ == step.stage
                &&& single_outcome(step.outcome, r)
            }),
    {
        let request = CashOrderRequest {
            cano: self.cano().to_owned(),
            acnt_prdt_cd: self.acnt_prdt_cd().to_owned(),
            pdno: symbol.to_owned(),
            ord_dvsn: order_type.code().to_owned(),
            ord_qty: decimal_text(quantity as u64),
            ord_unpr: decimal_text(price as u64),
        };
        let tr_id = if self.is_paper() {
            "VTTC0802U"
        } else {
            "TTTC0802U"
        };
        let call = DomainCall::mutating(
            "/uapi/domestic-stock/v1/trading/order-cash",
            tr_id,
            request.to_json(),
        );
        self.call_single(state, reply, now, &call)
    }

    /// Orders to sell `quantity` shares of `symbol` for cash, at `price` a share
    /// (0 for a market order).
    pub fn domestic_sell(
        &mut self,
        state: &mut CallState,
        reply: Option<HttpResponse>,
        now: u64,
        symbol: &str,
        quantity: u32,
        price: u32,
        order_type: OrderType,
    ) -> (r: Outcome<CashOrderResponse>)
        requires
            old(self)@.config.account_ready(),
        ensures
            ({
                let step = old(self)@.call(
                    old(state)@,
                    opt_response(reply),
                    now,
                    domestic_sell_call(old(self)@.config, symbol@, quantity, price, order_type),
                );
                &&& final(self)@ == step.client
                &&& final(state)@ == step.stage
                &&& single_outcome(step.outcome, r)
            }),
    {
        let request = CashOrderRequest {
            cano: self.cano().to_owned(),
            acnt_prdt_cd: self.acnt_prdt_cd().to_owned(),
            pdno: symbol.to_owned(),
            ord_dvsn: order_type.code().to_owned(),
            ord_qty: decimal_text(quantity as u64),
            ord_unpr: decimal_text(price as u64),
        };
        let tr_id = if self.is_paper() {
            "VTTC0801U"
        } else {
            "TTTC0801U"
        };
        let call = DomainCall::mutating(
            "/uapi/domestic-stock/v1/trading/order-cash",
            tr_id,
            request.to_json(),
        );
        self.call_single(state, reply, now, &call)
    }

    /// Revises the order `order_no` to `quantity` shares at `price` a share.
    pub fn domestic_revise_order(
        &mut self,
        state: &mut CallState,
        reply: Option<HttpResponse>,
        now: u64,
        order_no: &str,
        quantity: u32,
        price: u32,
        order_type: OrderType,
    ) -> (r: Outcome<OrderReviseResponse>)
        requires
            old(self)@.config.account_ready(),
        ensures
            ({
                let step = old(self)@.call(
                    old(state)@,
                    opt_response(reply),
                    now,
                    domestic_revise_order_call(
                        old(self)@.config,
                        order_no@,
                        quantity,
                        price,
                        order_type,
                    ),
                );
                &&& final(self)@ == step.client
                &&& final(state)@ == step.stage
                &&& single_outcome(step.outcome, r)
            }),
    {
        let request = OrderReviseRequest {
            cano: self.cano().to_owned(),
            acnt_prdt_cd: self.acnt_prdt_cd().to_owned(),
            krx_fwdg_ord_orgno: "".to_owned(),
            orgn_odno: order_no.to_owned(),
            ord_dvsn: order_type.code().to_owned(),
            rvse_cncl_dvsn_cd: "01".to_owned(),
            ord_qty: decimal_text(quantity as u64),
            ord_unpr: decimal_text(price as u64),
            qty_all_ord_yn: "N".to_owned(),
        };
        let call = DomainCall::mutating(
            "/uapi/domestic-stock/v1/trading/order-rvsecncl",
            "TTTC0803U",
            request.to_json(),
        );
        self.call_single(state, reply, now, &call)
    }

    /// Cancels `quantity` shares of the order `order_no`; all that is left of it
    /// where `quantity` is 0.
    pub fn domestic_cancel_order(
        &mut self,
        state: &mut CallState,
        reply: Option<HttpResponse>,
        now: u64,
        order_no: &str,
        quantity: u32,
    ) -> (r: Outcome<OrderReviseResponse>)
        requires
            old(self)@.config.account_ready(),
        ensures
            ({
                let step = old(self)@.call(
                    old(state)@,
                    opt_response(reply),
                    now,
                    domestic_cancel_order_call(old(self)@.config, order_no@, quantity),
                );
                &&& final(self)@ == step.client
                &&& final(state)@ == step.stage
                &&& single_outcome(step.outcome, r)
            }),
    {
        let qty_all_ord_yn = if quantity == 0 {
            "Y"
        } else {
            "N"
        };
        let request = OrderReviseRequest {
            cano: self.cano().to_owned(),
            acnt_prdt_cd: self.acnt_prdt_cd().to_owned(),
            krx_fwdg_ord_orgno: "".to_owned(),
            orgn_odno: order_no.to_owned(),
            ord_dvsn: "00".to_owned(),
            rvse_cncl_dvsn_cd: "02".to_owned(),
            ord_qty: decimal_text(quantity as u64),
            ord_unpr: "0".to_owned(),
            qty_all_ord_yn: qty_all_ord_yn.to_owned(),
        };
        let call = DomainCall::mutating(
            "/uapi/domestic-stock/v1/trading/order-rvsecncl",
            "TTTC0803U",
            request.to_json(),
        );
        self.call_single(state, reply, now, &call)
    }

    /// Asks for the current price of `symbol`.
    pub fn domestic_current_price(
        &mut self,
        state: &mut CallState,
        reply: Option<HttpResponse>,
        now: u64,
        symbol: &str,
    ) -> (r: Outcome<CurrentPriceResponse>)
        ensures
            ({
                let step = old(self)@.call(
                    old(state)@,
                    opt_response(reply),
                    now,
                    domestic_current_price_call(old(self)@.config, symbol@),
                );
                &&& final(self)@ == step.client
                &&& final(state)@ == step.stage
                &&& single_outcome(step.outcome, r)
            }),
    {
        let mut query = String::from_str("FID_COND_MRKT_DIV_CODE=J&FID_INPUT_ISCD=");
        query.append(symbol);
        let call = DomainCall::read(
            "/uapi/domestic-stock/v1/quotations/inquire-price",
            "FHKST01010100",
            Some(query.as_str()),
        );
        self.call_single(state, reply, now, &call)
    }

    /// Asks for the balance of the account: its holdings and its totals.
    pub fn domestic_balance(
        &mut self,
        state: &mut CallState,
        reply: Option<HttpResponse>,
        now: u64,
    ) -> (r: Outcome<(Vec<BalanceItem>, BalanceSummary)>)
        requires
            old(self)@.config.account_ready(),
        ensures
            ({
                let step = old(self)@.call(
                    old(state)@,
                    opt_response(reply),
                    now,
                    domestic_balance_call(old(self)@.config),
                );
                &&& final(self)@ == step.client
                &&& final(state)@ == step.stage
                &&& balance_outcome(step.outcome, r)
            }),
    {
        let tr_id = if self.is_paper() {
            "VTTC8434R"
        } else {
            "TTTC8434R"
        };
        let mut query = String::from_str("CANO=");
        query.append(self.cano());
        query.append("&ACNT_PRDT_CD=");
        query.append(self.acnt_prdt_cd());
        query.append(
            "&AFHR_FLPR_YN=N&INQR_DVSN=02&UNPR_DVSN=01&FUND_STTL_ICLD_YN=N&FNCG_AMT_AUTO_RDPT_YN=N&PRCS_DVSN=00&CTX_AREA_FK100=&CTX_AREA_NK100=",
        );
        let call = DomainCall::read(
            "/uapi/domestic-stock/v1/trading/inquire-balance",
            tr_id,
            Some(query.as_str()),
        );
        match self.call(state, reply, now, &call) {
            Outcome::Send(request) => Outcome::Send(request),
            Outcome::Done(Err(e)) => Outcome::Done(Err(e)),
            Outcome::Done(Ok(body)) => Outcome::Done(read_balance(body.as_str())),
        }
    }
}

} // verus!
