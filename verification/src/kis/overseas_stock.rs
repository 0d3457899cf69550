//! Overseas stocks: orders, the balance of the account and the current
//! price of a stock.

use vstd::prelude::*;
use crate::http::HttpResponse;
use crate::json::{
    is_object, json_is_object, members_view, object_text, optional_of, optional_ok, optional_text,
    text_member, write_object, Member,
};
use crate::kis::types::{
    list_outcome, single_outcome, Exchange, KisConfigView, OrderSide, Outcome, Payload,
};
use crate::kis::{opt_response, tr_id_of, CallState, DomainCall, DomainCallView, KisClient};
use crate::text::{decimal, decimal_text, joined, opt_view};

verus! {

/// An order for an overseas stock.
#[derive(Debug, Clone)]
pub struct OverseasOrderRequest {
    /// Account: the first eight digits of the account number.
    pub cano: String,
    /// Product code: the last two digits of the account number.
    pub acnt_prdt_cd: String,
    /// Code of the market.
    pub ovrs_excg_cd: String,
    /// Stock code, such as AAPL.
    pub pdno: String,
    /// Quantity.
    pub ord_qty: String,
    /// Price of one share; 0 for a market order.
    pub ovrs_ord_unpr: String,
    /// Code of the order server.
    pub ord_svr_dvsn_cd: String,
    /// Order division.
    pub ord_dvsn: String,
}

/// The members of a [`OverseasOrderRequest`] as they are written, in their order.
pub open spec fn overseas_order_members(
    cano: Seq<char>,
    acnt_prdt_cd: Seq<char>,
    ovrs_excg_cd: Seq<char>,
    pdno: Seq<char>,
    ord_qty: Seq<char>,
    ovrs_ord_unpr: Seq<char>,
    ord_svr_dvsn_cd: Seq<char>,
    ord_dvsn: Seq<char>,
) -> Seq<(Seq<char>, Option<Seq<char>>)> {
    seq![
        ("CANO"@, Some(cano)),
        ("ACNT_PRDT_CD"@, Some(acnt_prdt_cd)),
        ("OVRS_EXCG_CD"@, Some(ovrs_excg_cd)),
        ("PDNO"@, Some(pdno)),
        ("ORD_QTY"@, Some(ord_qty)),
        ("OVRS_ORD_UNPR"@, Some(ovrs_ord_unpr)),
        ("ORD_SVR_DVSN_CD"@, Some(ord_svr_dvsn_cd)),
        ("ORD_DVSN"@, Some(ord_dvsn)),
    ]
}

impl OverseasOrderRequest {
    /// The members of the request as they are written, in their order.
    pub open spec fn members(&self) -> Seq<(Seq<char>, Option<Seq<char>>)> {
        overseas_order_members(
            self.cano@,
            self.acnt_prdt_cd@,
            self.ovrs_excg_cd@,
            self.pdno@,
            self.ord_qty@,
            self.ovrs_ord_unpr@,
            self.ord_svr_dvsn_cd@,
            self.ord_dvsn@,
        )
    }

    /// The request as the JSON text that is sent and signed.
    pub fn to_json(&self) -> (r: String)
        ensures
            r@ == object_text(self.members()),
    {
        let mut members: Vec<Member> = Vec::new();
        members.push(text_member("CANO", self.cano.as_str()));
        members.push(text_member("ACNT_PRDT_CD", self.acnt_prdt_cd.as_str()));
        members.push(text_member("OVRS_EXCG_CD", self.ovrs_excg_cd.as_str()));
        members.push(text_member("PDNO", self.pdno.as_str()));
        members.push(text_member("ORD_QTY", self.ord_qty.as_str()));
        members.push(text_member("OVRS_ORD_UNPR", self.ovrs_ord_unpr.as_str()));
        members.push(text_member("ORD_SVR_DVSN_CD", self.ord_svr_dvsn_cd.as_str()));
        members.push(text_member("ORD_DVSN", self.ord_dvsn.as_str()));
        assert(members_view(members@) =~= self.members());
        write_object(&members)
    }
}

/// What the remote system answers to an order for an overseas stock.
#[derive(Debug, Clone)]
pub struct OverseasOrderResponse {
    /// Order number.
    pub ord_no: Option<String>,
    /// Time of the order.
    pub ord_tmd: Option<String>,
    /// Number of the organisation that forwarded the order.
    pub krx_fwdg_ord_orgno: Option<String>,
    /// Order number given by the organisation.
    pub odno: Option<String>,
    /// Whether the order can be revised or cancelled.
    pub ord_ableyn: Option<String>,
}

impl Payload for OverseasOrderResponse {
    open spec fn readable(value: serde_json::Value) -> bool {
        &&& json_is_object(value)
        &&& optional_ok(value, "ORD_NO"@)
        &&& optional_ok(value, "ORD_TMD"@)
        &&& optional_ok(value, "KRX_FWDG_ORD_ORGNO"@)
        &&& optional_ok(value, "ODNO"@)
        &&& optional_ok(value, "ORD_ABLEYN"@)
    }

    open spec fn holds(&self, value: serde_json::Value) -> bool {
        &&& opt_view(self.ord_no) == optional_of(value, "ORD_NO"@)
        &&& opt_view(self.ord_tmd) == optional_of(value, "ORD_TMD"@)
        &&& opt_view(self.krx_fwdg_ord_orgno) == optional_of(value, "KRX_FWDG_ORD_ORGNO"@)
        &&& opt_view(self.odno) == optional_of(value, "ODNO"@)
        &&& opt_view(self.ord_ableyn) == optional_of(value, "ORD_ABLEYN"@)
    }

    fn from_json(value: &serde_json::Value) -> (r: Option<Self>) {
        if !is_object(value) {
            return None;
        }
        let ord_no = match optional_text(value, "ORD_NO") {
            Ok(t) => t,
            Err(_) => {
                return None;
            },
        };
        let ord_tmd = match optional_text(value, "ORD_TMD") {
            Ok(t) => t,
            Err(_) => {
                return None;
            },
        };
        let krx_fwdg_ord_orgno = match optional_text(value, "KRX_FWDG_ORD_ORGNO") {
            Ok(t) => t,
            Err(_) => {
                return None;
            },
        };
        let odno = match optional_text(value, "ODNO") {
            Ok(t) => t,
            Err(_) => {
                return None;
            },
        };
        let ord_ableyn = match optional_text(value, "ORD_ABLEYN") {
            Ok(t) => t,
            Err(_) => {
                return None;
            },
        };
        Some(OverseasOrderResponse { ord_no, ord_tmd, krx_fwdg_ord_orgno, odno, ord_ableyn })
    }
}

/// One overseas holding of the account.
#[derive(Debug, Clone)]
pub struct OverseasBalanceItem {
    /// Code of the market.
    pub ovrs_excg_cd: Option<String>,
    /// Stock code.
    pub ovrs_pdno: Option<String>,
    /// Name of the stock.
    pub ovrs_item_name: Option<String>,
    /// Quantity held.
    pub ovrs_cblc_qty: Option<String>,
    /// Average price of purchase, in the local currency.
    pub frcr_pchs_amt1: Option<String>,
    /// Current price.
    pub ovrs_now_pric1: Option<String>,
    /// Valuation profit or loss, in the foreign currency.
    pub frcr_evlu_pfls_amt: Option<String>,
    /// Valuation profit or loss, as a rate.
    pub evlu_pfls_rt: Option<String>,
    /// Valuation, in the foreign currency.
    pub frcr_evlu_amt2: Option<String>,
    /// Code of the currency.
    pub tr_crcy_cd: Option<String>,
}

impl Payload for OverseasBalanceItem {
    open spec fn readable(value: serde_json::Value) -> bool {
        &&& json_is_object(value)
        &&& optional_ok(value, "ovrs_excg_cd"@)
        &&& optional_ok(value, "ovrs_pdno"@)
        &&& optional_ok(value, "ovrs_item_name"@)
        &&& optional_ok(value, "ovrs_cblc_qty"@)
        &&& optional_ok(value, "frcr_pchs_amt1"@)
        &&& optional_ok(value, "ovrs_now_pric1"@)
        &&& optional_ok(value, "frcr_evlu_pfls_amt"@)
        &&& optional_ok(value, "evlu_pfls_rt"@)
        &&& optional_ok(value, "frcr_evlu_amt2"@)
        &&& optional_ok(value, "tr_crcy_cd"@)
    }

    open spec fn holds(&self, value: serde_json::Value) -> bool {
        &&& opt_view(self.ovrs_excg_cd) == optional_of(value, "ovrs_excg_cd"@)
        &&& opt_view(self.ovrs_pdno) == optional_of(value, "ovrs_pdno"@)
        &&& opt_view(self.ovrs_item_name) == optional_of(value, "ovrs_item_name"@)
        &&& opt_view(self.ovrs_cblc_qty) == optional_of(value, "ovrs_cblc_qty"@)
        &&& opt_view(self.frcr_pchs_amt1) == optional_of(value, "frcr_pchs_amt1"@)
        &&& opt_view(self.ovrs_now_pric1) == optional_of(value, "ovrs_now_pric1"@)
        &&& opt_view(self.frcr_evlu_pfls_amt) == optional_of(value, "frcr_evlu_pfls_amt"@)
        &&& opt_view(self.evlu_pfls_rt) == optional_of(value, "evlu_pfls_rt"@)
        &&& opt_view(self.frcr_evlu_amt2) == optional_of(value, "frcr_evlu_amt2"@)
        &&& opt_view(self.tr_crcy_cd) == optional_of(value, "tr_crcy_cd"@)
    }

    fn from_json(value: &serde_json::Value) -> (r: Option<Self>) {
        if !is_object(value) {
            return None;
        }
        let ovrs_excg_cd = match optional_text(value, "ovrs_excg_cd") {
            Ok(t) => t,
            Err(_) => {
                return None;
            },
        };
        let ovrs_pdno = match optional_text(value, "ovrs_pdno") {
            Ok(t) => t,
            Err(_) => {
                return None;
            },
        };
        let ovrs_item_name = match optional_text(value, "ovrs_item_name") {
            Ok(t) => t,
            Err(_) => {
                return None;
            },
        };
        let ovrs_cblc_qty = match optional_text(value, "ovrs_cblc_qty") {
            Ok(t) => t,
            Err(_) => {
                return None;
            },
        };
        let frcr_pchs_amt1 = match optional_text(value, "frcr_pchs_amt1") {
            Ok(t) => t,
            Err(_) => {
                return None;
            },
        };
        let ovrs_now_pric1 = match optional_text(value, "ovrs_now_pric1") {
            Ok(t) => t,
            Err(_) => {
                return None;
            },
        };
        let frcr_evlu_pfls_amt = match optional_text(value, "frcr_evlu_pfls_amt") {
            Ok(t) => t,
            Err(_) => {
                return None;
            },
        };
        let evlu_pfls_rt = match optional_text(value, "evlu_pfls_rt") {
            Ok(t) => t,
            Err(_) => {
                return None;
            },
        };
        let frcr_evlu_amt2 = match optional_text(value, "frcr_evlu_amt2") {
            Ok(t) => t,
            Err(_) => {
                return None;
            },
        };
        let tr_crcy_cd = match optional_text(value, "tr_crcy_cd") {
            Ok(t) => t,
            Err(_) => {
                return None;
            },
        };
        Some(
            OverseasBalanceItem {
                ovrs_excg_cd,
                ovrs_pdno,
                ovrs_item_name,
                ovrs_cblc_qty,
                frcr_pchs_amt1,
                ovrs_now_pric1,
                frcr_evlu_pfls_amt,
                evlu_pfls_rt,
                frcr_evlu_amt2,
                tr_crcy_cd,
            },
        )
    }
}

/// The overseas holdings of the account.
pub type OverseasBalanceResponse = Vec<OverseasBalanceItem>;

/// The current price of an overseas stock.
#[derive(Debug, Clone)]
pub struct OverseasPriceResponse {
    /// Code under which the stock is quoted in real time.
    pub rsym: Option<String>,
    /// Number of decimal places.
    pub zdiv: Option<String>,
    /// Current price.
    pub last: Option<String>,
    /// Change from the day before.
    pub diff: Option<String>,
    /// Change from the day before, as a rate.
    pub rate: Option<String>,
    /// Opening price.
    pub open: Option<String>,
    /// Highest price.
    pub high: Option<String>,
    /// Lowest price.
    pub low: Option<String>,
    /// Volume.
    pub tvol: Option<String>,
    /// Turnover.
    pub tamt: Option<String>,
}

impl Payload for OverseasPriceResponse {
    open spec fn readable(value: serde_json::Value) -> bool {
        &&& json_is_object(value)
        &&& optional_ok(value, "rsym"@)
        &&& optional_ok(value, "zdiv"@)
        &&& optional_ok(value, "last"@)
        &&& optional_ok(value, "diff"@)
        &&& optional_ok(value, "rate"@)
        &&& optional_ok(value, "open"@)
        &&& optional_ok(value, "high"@)
        &&& optional_ok(value, "low"@)
        &&& optional_ok(value, "tvol"@)
        &&& optional_ok(value, "tamt"@)
    }

    open spec fn holds(&self, value: serde_json::Value) -> bool {
        &&& opt_view(self.rsym) == optional_of(value, "rsym"@)
        &&& opt_view(self.zdiv) == optional_of(value, "zdiv"@)
        &&& opt_view(self.last) == optional_of(value, "last"@)
        &&& opt_view(self.diff) == optional_of(value, "diff"@)
        &&& opt_view(self.rate) == optional_of(value, "rate"@)
        &&& opt_view(self.open) == optional_of(value, "open"@)
        &&& opt_view(self.high) == optional_of(value, "high"@)
        &&& opt_view(self.low) == optional_of(value, "low"@)
        &&& opt_view(self.tvol) == optional_of(value, "tvol"@)
        &&& opt_view(self.tamt) == optional_of(value, "tamt"@)
    }

    fn from_json(value: &serde_json::Value) -> (r: Option<Self>) {
        if !is_object(value) {
            return None;
        }
        let rsym = match optional_text(value, "rsym") {
            Ok(t) => t,
            Err(_) => {
                return None;
            },
        };
        let zdiv = match optional_text(value, "zdiv") {
            Ok(t) => t,
            Err(_) => {
                return None;
            },
        };
        let last = match optional_text(value, "last") {
            Ok(t) => t,
            Err(_) => {
                return None;
            },
        };
        let diff = match optional_text(value, "diff") {
            Ok(t) => t,
            Err(_) => {
                return None;
            },
        };
        let rate = match optional_text(value, "rate") {
            Ok(t) => t,
            Err(_) => {
                return None;
            },
        };
        let open = match optional_text(value, "open") {
            Ok(t) => t,
            Err(_) => {
                return None;
            },
        };
        let high = match optional_text(value, "high") {
            Ok(t) => t,
            Err(_) => {
                return None;
            },
        };
        let low = match optional_text(value, "low") {
            Ok(t) => t,
            Err(_) => {
                return None;
            },
        };
        let tvol = match optional_text(value, "tvol") {
            Ok(t) => t,
            Err(_) => {
                return None;
            },
        };
        let tamt = match optional_text(value, "tamt") {
            Ok(t) => t,
            Err(_) => {
                return None;
            },
        };
        Some(OverseasPriceResponse { rsym, zdiv, last, diff, rate, open, high, low, tvol, tamt })
    }
}

/// Order division of an order on a market of the United States.
#[derive(Debug, Clone, Copy, PartialEq, Eq, Structural)]
pub enum UsOrderType {
    /// Limit order.
    Limit,
    /// Market on open.
    PreMarketMOO,
    /// Limit on open.
    PreMarketLOO,
    /// Market on close.
    AfterMarketMOC,
}

impl UsOrderType {
    /// The code of the order division.
    pub open spec fn code_spec(self) -> Seq<char> {
        match self {
            UsOrderType::Limit => "00"@,
            UsOrderType::PreMarketMOO => "31"@,
            UsOrderType::PreMarketLOO => "32"@,
            UsOrderType::AfterMarketMOC => "34"@,
        }
    }

    /// The code of the order division.
    pub fn code(&self) -> (r: &'static str)
        ensures
            r@ == self.code_spec(),
    {
        match self {
            UsOrderType::Limit => "00",
            UsOrderType::PreMarketMOO => "31",
            UsOrderType::PreMarketLOO => "32",
            UsOrderType::AfterMarketMOC => "34",
        }
    }
}

/// What follows the environment's letter in the identifier of an order on
/// `exchange`: the markets of one country share their identifiers.
pub open spec fn order_tr_id_stem(exchange: Exchange, side: OrderSide) -> Seq<char> {
    match exchange {
        Exchange::NYSE | Exchange::NASDAQ | Exchange::AMEX => match side {
            OrderSide::Buy => "TTT1002U"@,
            OrderSide::Sell => "TTT1006U"@,
        },
        Exchange::SEHK => match side {
            OrderSide::Buy => "TTS1002U"@,
            OrderSide::Sell => "TTS1001U"@,
        },
        Exchange::SHAA => match side {
            OrderSide::Buy => "TTS0202U"@,
            OrderSide::Sell => "TTS1005U"@,
        },
        Exchange::SZAA => match side {
            OrderSide::Buy => "TTS0305U"@,
            OrderSide::Sell => "TTS0304U"@,
        },
        Exchange::TKSE => match side {
            OrderSide::Buy => "TTS0308U"@,
            OrderSide::Sell => "TTS0307U"@,
        },
        Exchange::HASE | Exchange::VNSE => match side {
            OrderSide::Buy => "TTS0311U"@,
            OrderSide::Sell => "TTS0310U"@,
        },
    }
}

/// The identifier of an order on `exchange` in an environment: `V` for paper
/// trading or `T` for production, then the stem.
pub open spec fn overseas_order_tr_id(
    is_paper: bool,
    exchange: Exchange,
    side: OrderSide,
) -> Seq<char> {
    tr_id_of(is_paper, "T"@, "V"@) + order_tr_id_stem(exchange, side)
}

/// The order division of an order on `exchange`: the chosen one, or a limit
/// order where none was chosen, on a market of the United States; a limit
/// order elsewhere.
pub open spec fn overseas_order_division(
    exchange: Exchange,
    order_type: Option<UsOrderType>,
) -> Seq<char> {
    if exchange.is_us_spec() {
        match order_type {
            Some(t) => t.code_spec(),
            None => UsOrderType::Limit.code_spec(),
        }
    } else {
        "00"@
    }
}

/// The call that [`KisClient::overseas_order`] makes.
pub open spec fn overseas_order_call(
    config: KisConfigView,
    exchange: Exchange,
    symbol: Seq<char>,
    side: OrderSide,
    quantity: u32,
    price: Seq<char>,
    order_type: Option<UsOrderType>,
) -> DomainCallView {
    DomainCallView::Mutating {
        path: "/uapi/overseas-stock/v1/trading/order"@,
        tr_id: overseas_order_tr_id(config.is_paper, exchange, side),
        body: object_text(
            overseas_order_members(
                config.cano(),
                config.acnt_prdt_cd(),
                exchange.code_spec(),
                symbol,
                decimal(quantity as nat),
                price,
                "0"@,
                overseas_order_division(exchange, order_type),
            ),
        ),
    }
}

/// The call that [`KisClient::overseas_balance`] makes.
pub open spec fn overseas_balance_call(
    config: KisConfigView,
) -> DomainCallView {
    DomainCallView::Read {
        path: "/uapi/overseas-stock/v1/trading/inquire-balance"@,
        tr_id: tr_id_of(config.is_paper, "TTTS3012R"@, "VTTS3012R"@),
        query: Some(
            "CANO="@ + config.cano() + "&ACNT_PRDT_CD="@ + config.acnt_prdt_cd()
                + "&OVRS_EXCG_CD=&TR_CRCY_CD=&CTX_AREA_FK200=&CTX_AREA_NK200="@,
        ),
    }
}

/// The call that [`KisClient::overseas_price`] makes.
pub open spec fn overseas_price_call(
    config: KisConfigView,
    exchange: Exchange,
    symbol: Seq<char>,
) -> DomainCallView {
    DomainCallView::Read {
        path: "/uapi/overseas-stock/v1/quotations/price"@,
        tr_id: "HHDFS00000300"@,
        query: Some("AUTH=&EXCD="@ + exchange.code_spec() + "&SYMB="@ + symbol),
    }
}

impl KisClient {
    /// The identifier of an order on `exchange` in the client's environment.
    pub fn get_overseas_order_tr_id(&self, exchange: Exchange, side: OrderSide) -> (r: String)
        ensures
            r@ == overseas_order_tr_id(self@.config.is_paper, exchange, side),
    {
        let prefix = if self.is_paper() {
            "V"
        } else {
            "T"
        };
        let stem = match exchange {
            Exchange::NYSE | Exchange::NASDAQ | Exchange::AMEX => match side {
                OrderSide::Buy => "TTT1002U",
                OrderSide::Sell => "TTT1006U",
            },
            Exchange::SEHK => match side {
                OrderSide::Buy => "TTS1002U",
                OrderSide::Sell => "TTS1001U",
            },
            Exchange::SHAA => match side {
                OrderSide::Buy => "TTS0202U",
                OrderSide::Sell => "TTS1005U",
            },
            Exchange::SZAA => match side {
                OrderSide::Buy => "TTS0305U",
                OrderSide::Sell => "TTS0304U",
            },
            Exchange::TKSE => match side {
                OrderSide::Buy => "TTS0308U",
                OrderSide::Sell => "TTS0307U",
            },
            Exchange::HASE | Exchange::VNSE => match side {
                OrderSide::Buy => "TTS0311U",
                OrderSide::Sell => "TTS0310U",
            },
        };
        joined(prefix, stem)
    }

    /// Orders `quantity` shares of `symbol` on `exchange`, at `price` a share.
    ///
    /// `price` is the price as it is written in the order: `"0"` for a market
    /// order, else the price with two decimal places.
    pub fn overseas_order(
        &mut self,
        state: &mut CallState,
        reply: Option<HttpResponse>,
        now: u64,
        exchange: Exchange,
        symbol: &str,
        side: OrderSide,
        quantity: u32,
        price: &str,
        order_type: Option<UsOrderType>,
    ) -> (r: Outcome<OverseasOrderResponse>)
        requires
            old(self)@.config.account_ready(),
        ensures
            ({
                let step = old(self)@.call(
                    old(state)@,
                    opt_response(reply),
                    now,
                    overseas_order_call(
                        old(self)@.config,
                        exchange,
                        symbol@,
                        side,
                        quantity,
                        price@,
                        order_type,
                    ),
                );
                &&& final(self)@ == step.client
                &&& final(state)@ == step.stage
                &&& single_outcome(step.outcome, r)
            }),
    {
        let tr_id = self.get_overseas_order_tr_id(exchange, side);
        let ord_dvsn = if exchange.is_us() {
            match order_type {
                Some(t) => t.code(),
                None => UsOrderType::Limit.code(),
            }
        } else {
            "00"
        };
        let request = OverseasOrderRequest {
            cano: self.cano().to_owned(),
            acnt_prdt_cd: self.acnt_prdt_cd().to_owned(),
            ovrs_excg_cd: exchange.code().to_owned(),
            pdno: symbol.to_owned(),
            ord_qty: decimal_text(quantity as u64),
            ovrs_ord_unpr: price.to_owned(),
            ord_svr_dvsn_cd: "0".to_owned(),
            ord_dvsn: ord_dvsn.to_owned(),
        };
        let call = DomainCall::mutating(
            "/uapi/overseas-stock/v1/trading/order",
            tr_id.as_str(),
            request.to_json(),
        );
        self.call_single(state, reply, now, &call)
    }

    /// Asks for the overseas stocks that the account holds.
    pub fn overseas_balance(
        &mut self,
        state: &mut CallState,
        reply: Option<HttpResponse>,
        now: u64,
    ) -> (r: Outcome<Vec<OverseasBalanceItem>>)
        requires
            old(self)@.config.account_ready(),
        ensures
            ({
                let step = old(self)@.call(
                    old(state)@,
                    opt_response(reply),
                    now,
                    overseas_balance_call(old(self)@.config),
                );
                &&& final(self)@ == step.client
                &&& final(state)@ == step.stage
                &&& list_outcome(step.outcome, r)
            }),
    {
        let tr_id = if self.is_paper() {
            "VTTS3012R"
        } else {
            "TTTS3012R"
        };
        let mut query = String::from_str("CANO=");
        query.append(self.cano());
        query.append("&ACNT_PRDT_CD=");
        query.append(self.acnt_prdt_cd());
        query.append("&OVRS_EXCG_CD=&TR_CRCY_CD=&CTX_AREA_FK200=&CTX_AREA_NK200=");
        let call = DomainCall::read(
            "/uapi/overseas-stock/v1/trading/inquire-balance",
            tr_id,
            Some(query.as_str()),
        );
        self.call_list(state, reply, now, &call)
    }

    /// Asks for the current price of `symbol` on `exchange`.
    pub fn overseas_price(
        &mut self,
        state: &mut CallState,
        reply: Option<HttpResponse>,
        now: u64,
        exchange: Exchange,
        symbol: &str,
    ) -> (r: Outcome<OverseasPriceResponse>)
        ensures
            ({
                let step = old(self)@.call(
                    old(state)@,
                    opt_response(reply),
                    now,
                    overseas_price_call(old(self)@.config, exchange, symbol@),
                );
                &&& final(self)@ == step.client
                &&& final(state)@ == step.stage
                &&& single_outcome(step.outcome, r)
            }),
    {
        let mut query = String::from_str("AUTH=&EXCD=");
        query.append(exchange.code());
        query.append("&SYMB=");
        query.append(symbol);
        let call = DomainCall::read(
            "/uapi/overseas-stock/v1/quotations/price",
            "HHDFS00000300",
            Some(query.as_str()),
        );
        self.call_single(state, reply, now, &call)
    }
}

} // verus!
