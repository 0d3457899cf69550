//! Domestic futures and options: orders, their modification and
//! cancellation, the balance, the deposit and the executions.

use vstd::prelude::*;
use crate::http::HttpResponse;
use crate::json::{
    is_object, json_is_object, members_view, object_text, optional_member, optional_of,
    optional_ok, optional_text, text_member, write_object, Member,
};
use crate::kis::types::{
    finish_plain, list_outcome, plain_outcome, single_outcome, KisConfigView, Outcome, Payload,
};
use crate::kis::{opt_response, tr_id_of, CallState, DomainCall, DomainCallView, KisClient};
use crate::text::{decimal, decimal_text, opt_view};

verus! {

/// What an order for a future or an option does.
#[derive(Debug, Clone, Copy, PartialEq, Eq, Structural)]
pub enum FutureOrderAction {
    /// Buy to open a position.
    NewBuy,
    /// Sell to open a position.
    NewSell,
    /// Buy to close a position.
    LiquidateBuy,
    /// Sell to close a position.
    LiquidateSell,
}

impl FutureOrderAction {
    /// The identifier of the operation in production.
    pub open spec fn prod_tr_id_spec(self) -> Seq<char> {
        match self {
            FutureOrderAction::NewBuy => "TTTO0101U"@,
            FutureOrderAction::NewSell => "TTTO0102U"@,
            FutureOrderAction::LiquidateBuy => "TTTO0103U"@,
            FutureOrderAction::LiquidateSell => "TTTO0104U"@,
        }
    }

    /// The identifier of the operation in production.
    pub fn prod_tr_id(&self) -> (r: &'static str)
        ensures
            r@ == self.prod_tr_id_spec(),
    {
        match self {
            FutureOrderAction::NewBuy => "TTTO0101U",
            FutureOrderAction::NewSell => "TTTO0102U",
            FutureOrderAction::LiquidateBuy => "TTTO0103U",
            FutureOrderAction::LiquidateSell => "TTTO0104U",
        }
    }

    /// The identifier of the operation in paper trading.
    pub open spec fn paper_tr_id_spec(self) -> Seq<char> {
        match self {
            FutureOrderAction::NewBuy => "VTTO0101U"@,
            FutureOrderAction::NewSell => "VTTO0102U"@,
            FutureOrderAction::LiquidateBuy => "VTTO0103U"@,
            FutureOrderAction::LiquidateSell => "VTTO0104U"@,
        }
    }

    /// The identifier of the operation in paper trading.
    pub fn paper_tr_id(&self) -> (r: &'static str)
        ensures
            r@ == self.paper_tr_id_spec(),
    {
        match self {
            FutureOrderAction::NewBuy => "VTTO0101U",
            FutureOrderAction::NewSell => "VTTO0102U",
            FutureOrderAction::LiquidateBuy => "VTTO0103U",
            FutureOrderAction::LiquidateSell => "VTTO0104U",
        }
    }

    /// The code of the side: 01 to sell, 02 to buy.
    pub open spec fn sll_buy_dvsn_cd_spec(self) -> Seq<char> {
        match self {
            FutureOrderAction::NewBuy => "02"@,
            FutureOrderAction::NewSell => "01"@,
            FutureOrderAction::LiquidateBuy => "02"@,
            FutureOrderAction::LiquidateSell => "01"@,
        }
    }

    /// The code of the side: 01 to sell, 02 to buy.
    pub fn sll_buy_dvsn_cd(&self) -> (r: &'static str)
        ensures
            r@ == self.sll_buy_dvsn_cd_spec(),
    {
        match self {
            FutureOrderAction::NewBuy => "02",
            FutureOrderAction::NewSell => "01",
            FutureOrderAction::LiquidateBuy => "02",
            FutureOrderAction::LiquidateSell => "01",
        }
    }
}

/// How the price of an order for a future or an option is set.
#[derive(Debug, Clone, Copy, PartialEq, Eq, Structural)]
pub enum FuturePriceType {
    /// At a limit.
    Limit,
    /// At the market.
    Market,
}

impl FuturePriceType {
    /// The code of the price type.
    pub open spec fn code_spec(self) -> Seq<char> {
        match self {
            FuturePriceType::Limit => "1"@,
            FuturePriceType::Market => "2"@,
        }
    }

    /// The code of the price type.
    pub fn code(&self) -> (r: &'static str)
        ensures
            r@ == self.code_spec(),
    {
        match self {
            FuturePriceType::Limit => "1",
            FuturePriceType::Market => "2",
        }
    }
}

/// An order for a future or an option.
#[derive(Debug, Clone)]
pub struct FutureOrderRequest {
    /// Account: the first eight digits of the account number.
    pub cano: String,
    /// Product code: the last two digits of the account number.
    pub acnt_prdt_cd: String,
    /// Code of the instrument, such as 101S3000.
    pub pdno: String,
    /// Side: 01 to sell, 02 to buy.
    pub sll_buy_dvsn_cd: String,
    /// Quantity.
    pub ord_qty: String,
    /// Price.
    pub unit_price: String,
    /// Price type: 1 limit, 2 market.
    pub nmpr_type_cd: String,
}

/// The members of a [`FutureOrderRequest`] as they are written, in their order.
pub open spec fn future_order_members(
    cano: Seq<char>,
    acnt_prdt_cd: Seq<char>,
    pdno: Seq<char>,
    sll_buy_dvsn_cd: Seq<char>,
    ord_qty: Seq<char>,
    unit_price: Seq<char>,
    nmpr_type_cd: Seq<char>,
) -> Seq<(Seq<char>, Option<Seq<char>>)> {
    seq![
        ("CANO"@, Some(cano)),
        ("ACNT_PRDT_CD"@, Some(acnt_prdt_cd)),
        ("PDNO"@, Some(pdno)),
        ("SLL_BUY_DVSN_CD"@, Some(sll_buy_dvsn_cd)),
        ("ORD_QTY"@, Some(ord_qty)),
        ("UNIT_PRICE"@, Some(unit_price)),
        ("NMPR_TYPE_CD"@, Some(nmpr_type_cd)),
    ]
}

impl FutureOrderRequest {
    /// The members of the request as they are written, in their order.
    pub open spec fn members(&self) -> Seq<(Seq<char>, Option<Seq<char>>)> {
        future_order_members(
            self.cano@,
            self.acnt_prdt_cd@,
            self.pdno@,
            self.sll_buy_dvsn_cd@,
            self.ord_qty@,
            self.unit_price@,
            self.nmpr_type_cd@,
        )
    }

    /// The request as the JSON text that is sent and signed.
    pub fn to_json(&self) -> (r: String)
        ensures
            r@ == object_text(self.members()),
    {
        let mut members: Vec<Member> = Vec::new();
        members.push(text_member("CANO", self.cano.as_str()));
        members.push(text_member("ACNT_PRDT_CD", self.acnt_prdt_cd.as_str()));
        members.push(text_member("PDNO", self.pdno.as_str()));
        members.push(text_member("SLL_BUY_DVSN_CD", self.sll_buy_dvsn_cd.as_str()));
        members.push(text_member("ORD_QTY", self.ord_qty.as_str()));
        members.push(text_member("UNIT_PRICE", self.unit_price.as_str()));
        members.push(text_member("NMPR_TYPE_CD", self.nmpr_type_cd.as_str()));
        assert(members_view(members@) =~= self.members());
        write_object(&members)
    }
}

/// What the remote system answers to an order for a future or an option.
#[derive(Debug, Clone)]
pub struct FutureOrderResponse {
    /// Order number.
    pub ord_no: Option<String>,
    /// Time of the order.
    pub ord_tmd: Option<String>,
}

impl Payload for FutureOrderResponse {
    open spec fn readable(value: serde_json::Value) -> bool {
        &&& json_is_object(value)
        &&& optional_ok(value, "ORD_NO"@)
        &&& optional_ok(value, "ORD_TMD"@)
    }

    open spec fn holds(&self, value: serde_json::Value) -> bool {
        &&& opt_view(self.ord_no) == optional_of(value, "ORD_NO"@)
        &&& opt_view(self.ord_tmd) == optional_of(value, "ORD_TMD"@)
    }

    fn from_json(value: &serde_json::Value) -> (r: Option<Self>) {
        if !is_object(value) {
            return None;
        }
        let ord_no = match optional_text(value, "ORD_NO") {
            Ok(t) => t,
            Err(_) => {
                return None;
            },
        };
        let ord_tmd = match optional_text(value, "ORD_TMD") {
            Ok(t) => t,
            Err(_) => {
                return None;
            },
        };
        Some(FutureOrderResponse { ord_no, ord_tmd })
    }
}

/// A modification or a cancellation of an order for a future or an option.
#[derive(Debug, Clone)]
pub struct FutureModifyCancelRequest {
    /// Account: the first eight digits of the account number.
    pub cano: String,
    /// Product code: the last two digits of the account number.
    pub acnt_prdt_cd: String,
    /// Number of the order to modify or cancel.
    pub orgn_ord_no: String,
    /// 01 to modify, 02 to cancel.
    pub rvse_cncl_dvsn_cd: String,
    /// New quantity, for a modification.
    pub ord_qty: Option<String>,
    /// New price, for a modification.
    pub unit_price: Option<String>,
}

/// The members of a [`FutureModifyCancelRequest`] as they are written, in their order.
pub open spec fn future_modify_cancel_members(
    cano: Seq<char>,
    acnt_prdt_cd: Seq<char>,
    orgn_ord_no: Seq<char>,
    rvse_cncl_dvsn_cd: Seq<char>,
    ord_qty: Option<Seq<char>>,
    unit_price: Option<Seq<char>>,
) -> Seq<(Seq<char>, Option<Seq<char>>)> {
    seq![
        ("CANO"@, Some(cano)),
        ("ACNT_PRDT_CD"@, Some(acnt_prdt_cd)),
        ("ORGN_ORD_NO"@, Some(orgn_ord_no)),
        ("RVSE_CNCL_DVSN_CD"@, Some(rvse_cncl_dvsn_cd)),
        ("ORD_QTY"@, ord_qty),
        ("UNIT_PRICE"@, unit_price),
    ]
}

impl FutureModifyCancelRequest {
    /// The members of the request as they are written, in their order.
    pub open spec fn members(&self) -> Seq<(Seq<char>, Option<Seq<char>>)> {
        future_modify_cancel_members(
            self.cano@,
            self.acnt_prdt_cd@,
            self.orgn_ord_no@,
            self.rvse_cncl_dvsn_cd@,
            opt_view(self.ord_qty),
            opt_view(self.unit_price),
        )
    }

    /// The request as the JSON text that is sent and signed.
    pub fn to_json(&self) -> (r: String)
        ensures
            r@ == object_text(self.members()),
    {
        let mut members: Vec<Member> = Vec::new();
        members.push(text_member("CANO", self.cano.as_str()));
        members.push(text_member("ACNT_PRDT_CD", self.acnt_prdt_cd.as_str()));
        members.push(text_member("ORGN_ORD_NO", self.orgn_ord_no.as_str()));
        members.push(text_member("RVSE_CNCL_DVSN_CD", self.rvse_cncl_dvsn_cd.as_str()));
        members.push(optional_member("ORD_QTY", &self.ord_qty));
        members.push(optional_member("UNIT_PRICE", &self.unit_price));
        assert(members_view(members@) =~= self.members());
        write_object(&members)
    }
}

/// One position in futures or options.
#[derive(Debug, Clone)]
pub struct FutureBalance {
    /// Code of the instrument.
    pub pdno: Option<String>,
    /// Name of the instrument.
    pub prdt_name: Option<String>,
    /// Side of the position.
    pub sll_buy_dvsn_cd: Option<String>,
    /// Quantity held.
    pub cblc_qty: Option<String>,
    /// Average price.
    pub avg_unpr: Option<String>,
    /// Current price.
    pub prpr: Option<String>,
    /// Valuation profit or loss.
    pub evlu_pfls_amt: Option<String>,
    /// Profit or loss, as a rate.
    pub pfls_rt: Option<String>,
}

impl Payload for FutureBalance {
    open spec fn readable(value: serde_json::Value) -> bool {
        &&& json_is_object(value)
        &&& optional_ok(value, "PDNO"@)
        &&& optional_ok(value, "PRDT_NAME"@)
        &&& optional_ok(value, "SLL_BUY_DVSN_CD"@)
        &&& optional_ok(value, "CBLC_QTY"@)
        &&& optional_ok(value, "AVG_UNPR"@)
        &&& optional_ok(value, "PRPR"@)
        &&& optional_ok(value, "EVLU_PFLS_AMT"@)
        &&& optional_ok(value, "PFLS_RT"@)
    }

    open spec fn holds(&self, value: serde_json::Value) -> bool {
        &&& opt_view(self.pdno) == optional_of(value, "PDNO"@)
        &&& opt_view(self.prdt_name) == optional_of(value, "PRDT_NAME"@)
        &&& opt_view(self.sll_buy_dvsn_cd) == optional_of(value, "SLL_BUY_DVSN_CD"@)
        &&& opt_view(self.cblc_qty) == optional_of(value, "CBLC_QTY"@)
        &&& opt_view(self.avg_unpr) == optional_of(value, "AVG_UNPR"@)
        &&& opt_view(self.prpr) == optional_of(value, "PRPR"@)
        &&& opt_view(self.evlu_pfls_amt) == optional_of(value, "EVLU_PFLS_AMT"@)
        &&& opt_view(self.pfls_rt) == optional_of(value, "PFLS_RT"@)
    }

    fn from_json(value: &serde_json::Value) -> (r: Option<Self>) {
        if !is_object(value) {
            return None;
        }
        let pdno = match optional_text(value, "PDNO") {
            Ok(t) => t,
            Err(_) => {
                return None;
            },
        };
        let prdt_name = match optional_text(value, "PRDT_NAME") {
            Ok(t) => t,
            Err(_) => {
                return None;
            },
        };
        let sll_buy_dvsn_cd = match optional_text(value, "SLL_BUY_DVSN_CD") {
            Ok(t) => t,
            Err(_) => {
                return None;
            },
        };
        let cblc_qty = match optional_text(value, "CBLC_QTY") {
            Ok(t) => t,
            Err(_) => {
                return None;
            },
        };
        let avg_unpr = match optional_text(value, "AVG_UNPR") {
            Ok(t) => t,
            Err(_) => {
                return None;
            },
        };
        let prpr = match optional_text(value, "PRPR") {
            Ok(t) => t,
            Err(_) => {
                return None;
            },
        };
        let evlu_pfls_amt = match optional_text(value, "EVLU_PFLS_AMT") {
            Ok(t) => t,
            Err(_) => {
                return None;
            },
        };
        let pfls_rt = match optional_text(value, "PFLS_RT") {
            Ok(t) => t,
            Err(_) => {
                return None;
            },
        };
        Some(
            FutureBalance {
                pdno,
                prdt_name,
                sll_buy_dvsn_cd,
                cblc_qty,
                avg_unpr,
                prpr,
                evlu_pfls_amt,
                pfls_rt,
            },
        )
    }
}

/// The deposit behind the futures and options of the account.
#[derive(Debug, Clone)]
pub struct FutureDeposit {
    /// Total deposit.
    pub dnca_tot_amt: Option<String>,
    /// Margin.
    pub mgna_amt: Option<String>,
    /// Margin, as a rate.
    pub mgna_rt: Option<String>,
    /// Amount available for orders.
    pub ord_psbl_amt: Option<String>,
    /// Amount that can be withdrawn.
    pub wdrw_psbl_amt: Option<String>,
}

impl Payload for FutureDeposit {
    open spec fn readable(value: serde_json::Value) -> bool {
        &&& json_is_object(value)
        &&& optional_ok(value, "DNCA_TOT_AMT"@)
        &&& optional_ok(value, "MGNA_AMT"@)
        &&& optional_ok(value, "MGNA_RT"@)
        &&& optional_ok(value, "ORD_PSBL_AMT"@)
        &&& optional_ok(value, "WDRW_PSBL_AMT"@)
    }

    open spec fn holds(&self, value: serde_json::Value) -> bool {
        &&& opt_view(self.dnca_tot_amt) == optional_of(value, "DNCA_TOT_AMT"@)
        &&& opt_view(self.mgna_amt) == optional_of(value, "MGNA_AMT"@)
        &&& opt_view(self.mgna_rt) == optional_of(value, "MGNA_RT"@)
        &&& opt_view(self.ord_psbl_amt) == optional_of(value, "ORD_PSBL_AMT"@)
        &&& opt_view(self.wdrw_psbl_amt) == optional_of(value, "WDRW_PSBL_AMT"@)
    }

    fn from_json(value: &serde_json::Value) -> (r: Option<Self>) {
        if !is_object(value) {
            return None;
        }
        let dnca_tot_amt = match optional_text(value, "DNCA_TOT_AMT") {
            Ok(t) => t,
            Err(_) => {
                return None;
            },
        };
        let mgna_amt = match optional_text(value, "MGNA_AMT") {
            Ok(t) => t,
            Err(_) => {
                return None;
            },
        };
        let mgna_rt = match optional_text(value, "MGNA_RT") {
            Ok(t) => t,
            Err(_) => {
                return None;
            },
        };
        let ord_psbl_amt = match optional_text(value, "ORD_PSBL_AMT") {
            Ok(t) => t,
            Err(_) => {
                return None;
            },
        };
        let wdrw_psbl_amt = match optional_text(value, "WDRW_PSBL_AMT") {
            Ok(t) => t,
            Err(_) => {
                return None;
            },
        };
        Some(FutureDeposit { dnca_tot_amt, mgna_amt, mgna_rt, ord_psbl_amt, wdrw_psbl_amt })
    }
}

/// One execution of an order for a future or an option.
#[derive(Debug, Clone)]
pub struct FutureExecution {
    /// Order number.
    pub ord_no: Option<String>,
    /// Code of the instrument.
    pub pdno: Option<String>,
    /// Name of the instrument.
    pub prdt_name: Option<String>,
    /// Side.
    pub sll_buy_dvsn_cd: Option<String>,
    /// Quantity executed.
    pub ccld_qty: Option<String>,
    /// Price of the execution.
    pub ccld_unpr: Option<String>,
    /// Time of the execution.
    pub ccld_tmd: Option<String>,
    /// Amount of the execution.
    pub ccld_amt: Option<String>,
}

impl Payload for FutureExecution {
    open spec fn readable(value: serde_json::Value) -> bool {
        &&& json_is_object(value)
        &&& optional_ok(value, "ORD_NO"@)
        &&& optional_ok(value, "PDNO"@)
        &&& optional_ok(value, "PRDT_NAME"@)
        &&& optional_ok(value, "SLL_BUY_DVSN_CD"@)
        &&& optional_ok(value, "CCLD_QTY"@)
        &&& optional_ok(value, "CCLD_UNPR"@)
        &&& optional_ok(value, "CCLD_TMD"@)
        &&& optional_ok(value, "CCLD_AMT"@)
    }

    open spec fn holds(&self, value: serde_json::Value) -> bool {
        &&& opt_view(self.ord_no) == optional_of(value, "ORD_NO"@)
        &&& opt_view(self.pdno) == optional_of(value, "PDNO"@)
        &&& opt_view(self.prdt_name) == optional_of(value, "PRDT_NAME"@)
        &&& opt_view(self.sll_buy_dvsn_cd) == optional_of(value, "SLL_BUY_DVSN_CD"@)
        &&& opt_view(self.ccld_qty) == optional_of(value, "CCLD_QTY"@)
        &&& opt_view(self.ccld_unpr) == optional_of(value, "CCLD_UNPR"@)
        &&& opt_view(self.ccld_tmd) == optional_of(value, "CCLD_TMD"@)
        &&& opt_view(self.ccld_amt) == optional_of(value, "CCLD_AMT"@)
    }

    fn from_json(value: &serde_json::Value) -> (r: Option<Self>) {
        if !is_object(value) {
            return None;
        }
        let ord_no = match optional_text(value, "ORD_NO") {
            Ok(t) => t,
            Err(_) => {
                return None;
            },
        };
        let pdno = match optional_text(value, "PDNO") {
            Ok(t) => t,
            Err(_) => {
                return None;
            },
        };
        let prdt_name = match optional_text(value, "PRDT_NAME") {
            Ok(t) => t,
            Err(_) => {
                return None;
            },
        };
        let sll_buy_dvsn_cd = match optional_text(value, "SLL_BUY_DVSN_CD") {
            Ok(t) => t,
            Err(_) => {
                return None;
            },
        };
        let ccld_qty = match optional_text(value, "CCLD_QTY") {
            Ok(t) => t,
            Err(_) => {
                return None;
            },
        };
        let ccld_unpr = match optional_text(value, "CCLD_UNPR") {
            Ok(t) => t,
            Err(_) => {
                return None;
            },
        };
        let ccld_tmd = match optional_text(value, "CCLD_TMD") {
            Ok(t) => t,
            Err(_) => {
                return None;
            },
        };
        let ccld_amt = match optional_text(value, "CCLD_AMT") {
            Ok(t) => t,
            Err(_) => {
                return None;
            },
        };
        Some(
            FutureExecution {
                ord_no,
                pdno,
                prdt_name,
                sll_buy_dvsn_cd,
                ccld_qty,
                ccld_unpr,
                ccld_tmd,
                ccld_amt,
            },
        )
    }
}

/// The call that [`KisClient::future_order`] makes.
pub open spec fn future_order_call(
    config: KisConfigView,
    action: FutureOrderAction,
    symbol: Seq<char>,
    quantity: u32,
    price: Seq<char>,
    price_type: FuturePriceType,
) -> DomainCallView {
    DomainCallView::Mutating {
        path: "/uapi/domestic-futureoption/v1/trading/order"@,
        tr_id: tr_id_of(config.is_paper, action.prod_tr_id_spec(), action.paper_tr_id_spec()),
        body: object_text(
            future_order_members(
                config.cano(),
                config.acnt_prdt_cd(),
                symbol,
                action.sll_buy_dvsn_cd_spec(),
                decimal(quantity as nat),
                price,
                price_type.code_spec(),
            ),
        ),
    }
}

/// The call that [`KisClient::future_modify_order`] makes.
pub open spec fn future_modify_order_call(
    config: KisConfigView,
    order_no: Seq<char>,
    quantity: u32,
    price: Seq<char>,
) -> DomainCallView {
    DomainCallView::Mutating {
        path: "/uapi/domestic-futureoption/v1/trading/order-rvsecncl"@,
        tr_id: tr_id_of(config.is_paper, "TTTO0105U"@, "VTTO0105U"@),
        body: object_text(
            future_modify_cancel_members(
                config.cano(),
                config.acnt_prdt_cd(),
                order_no,
                "01"@,
                Some(decimal(quantity as nat)),
                Some(price),
            ),
        ),
    }
}

/// The call that [`KisClient::future_cancel_order`] makes.
pub open spec fn future_cancel_order_call(
    config: KisConfigView,
    order_no: Seq<char>,
) -> DomainCallView {
    DomainCallView::Mutating {
        path: "/uapi/domestic-futureoption/v1/trading/order-rvsecncl"@,
        tr_id: tr_id_of(config.is_paper, "TTTO0106U"@, "VTTO0106U"@),
        body: object_text(
            future_modify_cancel_members(
                config.cano(),
                config.acnt_prdt_cd(),
                order_no,
                "02"@,
                None,
                None,
            ),
        ),
    }
}

/// The call that [`KisClient::future_get_balance`] makes.
pub open spec fn future_get_balance_call(
    config: KisConfigView,
) -> DomainCallView {
    DomainCallView::Read {
        path: "/uapi/domestic-futureoption/v1/trading/inquire-balance"@,
        tr_id: tr_id_of(config.is_paper, "TTTO5201R"@, "VTTO5201R"@),
        query: Some(
            "CANO="@ + config.cano() + "&ACNT_PRDT_CD="@ + config.acnt_prdt_cd()
                + "&AFHR_FLPR_YN=N&INQR_DVSN=00&UNPR_DVSN=01&FUND_STTL_ICLD_YN=N&FNCG_AMT_AUTO_RDPT_YN=N&OFL_YN=N&CTX_AREA_FK100=&CTX_AREA_NK100="@,
        ),
    }
}

/// The call that [`KisClient::future_get_deposit`] makes.
pub open spec fn future_get_deposit_call(
    config: KisConfigView,
) -> DomainCallView {
    DomainCallView::Read {
        path: "/uapi/domestic-futureoption/v1/trading/inquire-deposit"@,
        tr_id: tr_id_of(config.is_paper, "TTTO5300R"@, "VTTO5300R"@),
        query: Some(
            "CANO="@ + config.cano() + "&ACNT_PRDT_CD="@ + config.acnt_prdt_cd()
                + "&INQR_DVSN_1=00&INQR_DVSN_2=00"@,
        ),
    }
}

/// The date as it stands in a query: the date itself, or nothing for today.
pub open spec fn date_or_today(date: Option<Seq<char>>) -> Seq<char> {
    match date {
        Some(d) => d,
        None => Seq::empty(),
    }
}

/// The view of an optional borrowed text.
pub open spec fn opt_str(text: Option<&str>) -> Option<Seq<char>> {
    match text {
        Some(t) => Some(t@),
        None => None,
    }
}

/// The call that [`KisClient::future_get_executions`] makes.
pub open spec fn future_get_executions_call(
    config: KisConfigView,
    date: Option<Seq<char>>,
) -> DomainCallView {
    DomainCallView::Read {
        path: "/uapi/domestic-futureoption/v1/trading/inquire-ccnl"@,
        tr_id: tr_id_of(config.is_paper, "TTTO5107R"@, "VTTO5107R"@),
        query: Some(
            "CANO="@ + config.cano() + "&ACNT_PRDT_CD="@ + config.acnt_prdt_cd() + "&INQR_STRT_DT="@
                + date_or_today(date) + "&INQR_END_DT="@ + date_or_today(date)
                + "&SLL_BUY_DVSN_CD=00&INQR_DVSN=00&PDNO=&CCLD_DVSN=00&ORD_GNO_BRNO=&ODNO=&INQR_DVSN_3=00&INQR_DVSN_1=&CTX_AREA_FK100=&CTX_AREA_NK100="@,
        ),
    }
}

impl KisClient {
    /// Places an order for `quantity` of the future or option `symbol` at `price`
    /// (`"0"` for a market order).
    pub fn future_order(
        &mut self,
        state: &mut CallState,
        reply: Option<HttpResponse>,
        now: u64,
        action: FutureOrderAction,
        symbol: &str,
        quantity: u32,
        price: &str,
        price_type: FuturePriceType,
    ) -> (r: Outcome<FutureOrderResponse>)
        requires
            old(self)@.config.account_ready(),
        ensures
            ({
                let step = old(self)@.call(
                    old(state)@,
                    opt_response(reply),
                    now,
                    future_order_call(
                        old(self)@.config,
                        action,
                        symbol@,
                        quantity,
                        price@,
                        price_type,
                    ),
                );
                &&& final(self)@ == step.client
                &&& final(state)@ == step.stage
                &&& single_outcome(step.outcome, r)
            }),
    {
        let tr_id = self.get_future_tr_id(action.prod_tr_id(), action.paper_tr_id());
        let request = FutureOrderRequest {
            cano: self.cano().to_owned(),
            acnt_prdt_cd: self.acnt_prdt_cd().to_owned(),
            pdno: symbol.to_owned(),
            sll_buy_dvsn_cd: action.sll_buy_dvsn_cd().to_owned(),
            ord_qty: decimal_text(quantity as u64),
            unit_price: price.to_owned(),
            nmpr_type_cd: price_type.code().to_owned(),
        };
        let call = DomainCall::mutating(
            "/uapi/domestic-futureoption/v1/trading/order",
            tr_id,
            request.to_json(),
        );
        self.call_single(state, reply, now, &call)
    }

    /// Modifies the order `order_no` to `quantity` at `price`.  The result is
    /// `true`; a failure that the remote system reports is an error.
    pub fn future_modify_order(
        &mut self,
        state: &mut CallState,
        reply: Option<HttpResponse>,
        now: u64,
        order_no: &str,
        quantity: u32,
        price: &str,
    ) -> (r: Outcome<bool>)
        requires
            old(self)@.config.account_ready(),
        ensures
            ({
                let step = old(self)@.call(
                    old(state)@,
                    opt_response(reply),
                    now,
                    future_modify_order_call(old(self)@.config, order_no@, quantity, price@),
                );
                &&& final(self)@ == step.client
                &&& final(state)@ == step.stage
                &&& plain_outcome(step.outcome, r)
            }),
    {
        let tr_id = self.get_future_tr_id("TTTO0105U", "VTTO0105U");
        let request = FutureModifyCancelRequest {
            cano: self.cano().to_owned(),
            acnt_prdt_cd: self.acnt_prdt_cd().to_owned(),
            orgn_ord_no: order_no.to_owned(),
            rvse_cncl_dvsn_cd: "01".to_owned(),
            ord_qty: Some(decimal_text(quantity as u64)),
            unit_price: Some(price.to_owned()),
        };
        let call = DomainCall::mutating(
            "/uapi/domestic-futureoption/v1/trading/order-rvsecncl",
            tr_id,
            request.to_json(),
        );
        finish_plain(self.call(state, reply, now, &call))
    }

    /// Cancels the order `order_no`.  The result is `true`; a failure that the
    /// remote system reports is an error.
    pub fn future_cancel_order(
        &mut self,
        state: &mut CallState,
        reply: Option<HttpResponse>,
        now: u64,
        order_no: &str,
    ) -> (r: Outcome<bool>)
        requires
            old(self)@.config.account_ready(),
        ensures
            ({
                let step = old(self)@.call(
                    old(state)@,
                    opt_response(reply),
                    now,
                    future_cancel_order_call(old(self)@.config, order_no@),
                );
                &&& final(self)@ == step.client
                &&& final(state)@ == step.stage
                &&& plain_outcome(step.outcome, r)
            }),
    {
        let tr_id = self.get_future_tr_id("TTTO0106U", "VTTO0106U");
        let request = FutureModifyCancelRequest {
            cano: self.cano().to_owned(),
            acnt_prdt_cd: self.acnt_prdt_cd().to_owned(),
            orgn_ord_no: order_no.to_owned(),
            rvse_cncl_dvsn_cd: "02".to_owned(),
            ord_qty: None,
            unit_price: None,
        };
        let call = DomainCall::mutating(
            "/uapi/domestic-futureoption/v1/trading/order-rvsecncl",
            tr_id,
            request.to_json(),
        );
        finish_plain(self.call(state, reply, now, &call))
    }

    /// Asks for the positions in futures and options.
    pub fn future_get_balance(
        &mut self,
        state: &mut CallState,
        reply: Option<HttpResponse>,
        now: u64,
    ) -> (r: Outcome<Vec<FutureBalance>>)
        requires
            old(self)@.config.account_ready(),
        ensures
            ({
                let step = old(self)@.call(
                    old(state)@,
                    opt_response(reply),
                    now,
                    future_get_balance_call(old(self)@.config),
                );
                &&& final(self)@ == step.client
                &&& final(state)@ == step.stage
                &&& list_outcome(step.outcome, r)
            }),
    {
        let tr_id = self.get_future_tr_id("TTTO5201R", "VTTO5201R");
        let mut query = String::from_str("CANO=");
        query.append(self.cano());
        query.append("&ACNT_PRDT_CD=");
        query.append(self.acnt_prdt_cd());
        query.append(
            "&AFHR_FLPR_YN=N&INQR_DVSN=00&UNPR_DVSN=01&FUND_STTL_ICLD_YN=N&FNCG_AMT_AUTO_RDPT_YN=N&OFL_YN=N&CTX_AREA_FK100=&CTX_AREA_NK100=",
        );
        let call = DomainCall::read(
            "/uapi/domestic-futureoption/v1/trading/inquire-balance",
            tr_id,
            Some(query.as_str()),
        );
        self.call_list(state, reply, now, &call)
    }

    /// Asks for the deposit behind the futures and options.
    pub fn future_get_deposit(
        &mut self,
        state: &mut CallState,
        reply: Option<HttpResponse>,
        now: u64,
    ) -> (r: Outcome<FutureDeposit>)
        requires
            old(self)@.config.account_ready(),
        ensures
            ({
                let step = old(self)@.call(
                    old(state)@,
                    opt_response(reply),
                    now,
                    future_get_deposit_call(old(self)@.config),
                );
                &&& final(self)@ == step.client
                &&& final(state)@ == step.stage
                &&& single_outcome(step.outcome, r)
            }),
    {
        let tr_id = self.get_future_tr_id("TTTO5300R", "VTTO5300R");
        let mut query = String::from_str("CANO=");
        query.append(self.cano());
        query.append("&ACNT_PRDT_CD=");
        query.append(self.acnt_prdt_cd());
        query.append("&INQR_DVSN_1=00&INQR_DVSN_2=00");
        let call = DomainCall::read(
            "/uapi/domestic-futureoption/v1/trading/inquire-deposit",
            tr_id,
            Some(query.as_str()),
        );
        self.call_single(state, reply, now, &call)
    }

    /// Asks for the executions of `date`, written as YYYYMMDD; of today where
    /// there is no date.
    pub fn future_get_executions(
        &mut self,
        state: &mut CallState,
        reply: Option<HttpResponse>,
        now: u64,
        date: Option<&str>,
    ) -> (r: Outcome<Vec<FutureExecution>>)
        requires
            old(self)@.config.account_ready(),
        ensures
            ({
                let step = old(self)@.call(
                    old(state)@,
                    opt_response(reply),
                    now,
                    future_get_executions_call(old(self)@.config, opt_str(date)),
                );
                &&& final(self)@ == step.client
                &&& final(state)@ == step.stage
                &&& list_outcome(step.outcome, r)
            }),
    {
        let tr_id = self.get_future_tr_id("TTTO5107R", "VTTO5107R");
        let query_date = match date {
            Some(d) => d,
            None => "",
        };
        proof {
            reveal_strlit("");
            assert(query_date@ =~= date_or_today(opt_str(date)));
        }
        let mut query = String::from_str("CANO=");
        query.append(self.cano());
        query.append("&ACNT_PRDT_CD=");
        query.append(self.acnt_prdt_cd());
        query.append("&INQR_STRT_DT=");
        query.append(query_date);
        query.append("&INQR_END_DT=");
        query.append(query_date);
        query.append(
            "&SLL_BUY_DVSN_CD=00&INQR_DVSN=00&PDNO=&CCLD_DVSN=00&ORD_GNO_BRNO=&ODNO=&INQR_DVSN_3=00&INQR_DVSN_1=&CTX_AREA_FK100=&CTX_AREA_NK100=",
        );
        let call = DomainCall::read(
            "/uapi/domestic-futureoption/v1/trading/inquire-ccnl",
            tr_id,
            Some(query.as_str()),
        );
        self.call_list(state, reply, now, &call)
    }

    /// Places an order that buys to open a position.
    pub fn future_new_buy(
        &mut self,
        state: &mut CallState,
        reply: Option<HttpResponse>,
        now: u64,
        symbol: &str,
        quantity: u32,
        price: &str,
        price_type: FuturePriceType,
    ) -> (r: Outcome<FutureOrderResponse>)
        requires
            old(self)@.config.account_ready(),
        ensures
            ({
                let step = old(self)@.call(
                    old(state)@,
                    opt_response(reply),
                    now,
                    future_order_call(
                        old(self)@.config,
                        FutureOrderAction::NewBuy,
                        symbol@,
                        quantity,
                        price@,
                        price_type,
                    ),
                );
                &&& final(self)@ == step.client
                &&& final(state)@ == step.stage
                &&& single_outcome(step.outcome, r)
            }),
    {
        self.future_order(
            state,
            reply,
            now,
            FutureOrderAction::NewBuy,
            symbol,
            quantity,
            price,
            price_type,
        )
    }

    /// Places an order that sells to open a position.
    pub fn future_new_sell(
        &mut self,
        state: &mut CallState,
        reply: Option<HttpResponse>,
        now: u64,
        symbol: &str,
        quantity: u32,
        price: &str,
        price_type: FuturePriceType,
    ) -> (r: Outcome<FutureOrderResponse>)
        requires
            old(self)@.config.account_ready(),
        ensures
            ({
                let step = old(self)@.call(
                    old(state)@,
                    opt_response(reply),
                    now,
                    future_order_call(
                        old(self)@.config,
                        FutureOrderAction::NewSell,
                        symbol@,
                        quantity,
                        price@,
                        price_type,
                    ),
                );
                &&& final(self)@ == step.client
                &&& final(state)@ == step.stage
                &&& single_outcome(step.outcome, r)
            }),
    {
        self.future_order(
            state,
            reply,
            now,
            FutureOrderAction::NewSell,
            symbol,
            quantity,
            price,
            price_type,
        )
    }

    /// Places an order that buys to close a position.
    pub fn future_liquidate_buy(
        &mut self,
        state: &mut CallState,
        reply: Option<HttpResponse>,
        now: u64,
        symbol: &str,
        quantity: u32,
        price: &str,
        price_type: FuturePriceType,
    ) -> (r: Outcome<FutureOrderResponse>)
        requires
            old(self)@.config.account_ready(),
        ensures
            ({
                let step = old(self)@.call(
                    old(state)@,
                    opt_response(reply),
                    now,
                    future_order_call(
                        old(self)@.config,
                        FutureOrderAction::LiquidateBuy,
                        symbol@,
                        quantity,
                        price@,
                        price_type,
                    ),
                );
                &&& final(self)@ == step.client
                &&& final(state)@ == step.stage
                &&& single_outcome(step.outcome, r)
            }),
    {
        self.future_order(
            state,
            reply,
            now,
            FutureOrderAction::LiquidateBuy,
            symbol,
            quantity,
            price,
            price_type,
        )
    }

    /// Places an order that sells to close a position.
    pub fn future_liquidate_sell(
        &mut self,
        state: &mut CallState,
        reply: Option<HttpResponse>,
        now: u64,
        symbol: &str,
        quantity: u32,
        price: &str,
        price_type: FuturePriceType,
    ) -> (r: Outcome<FutureOrderResponse>)
        requires
            old(self)@.config.account_ready(),
        ensures
            ({
                let step = old(self)@.call(
                    old(state)@,
                    opt_response(reply),
                    now,
                    future_order_call(
                        old(self)@.config,
                        FutureOrderAction::LiquidateSell,
                        symbol@,
                        quantity,
                        price@,
                        price_type,
                    ),
                );
                &&& final(self)@ == step.client
                &&& final(state)@ == step.stage
                &&& single_outcome(step.outcome, r)
            }),
    {
        self.future_order(
            state,
            reply,
            now,
            FutureOrderAction::LiquidateSell,
            symbol,
            quantity,
            price,
            price_type,
        )
    }
}

} // verus!
