//! Domestic bonds traded on the exchange: orders to buy and to sell, their
//! revision and cancellation, the balance, quotes and prices.

use vstd::prelude::*;
use crate::http::HttpResponse;
use crate::json::{
    is_object, json_is_object, members_view, object_text, optional_member, optional_of,
    optional_ok, optional_text, text_member, write_object, Member,
};
use crate::kis::types::{list_outcome, single_outcome, KisConfigView, Outcome, Payload};
use crate::kis::{opt_response, tr_id_of, CallState, DomainCall, DomainCallView, KisClient};
use crate::text::{decimal, decimal_text, opt_view};

verus! {

/// An order to buy a bond.
#[derive(Debug, Clone)]
pub struct BondBuyRequest {
    /// Account: the first eight digits of the account number.
    pub cano: String,
    /// Product code: the last two digits of the account number.
    pub acnt_prdt_cd: String,
    /// Serial number of the bond.
    pub bond_srno: String,
    /// Quantity.
    pub ord_qty: String,
    /// Price.
    pub ord_pric: String,
}

/// The members of a [`BondBuyRequest`] as they are written, in their order.
pub open spec fn bond_buy_members(
    cano: Seq<char>,
    acnt_prdt_cd: Seq<char>,
    bond_srno: Seq<char>,
    ord_qty: Seq<char>,
    ord_pric: Seq<char>,
) -> Seq<(Seq<char>, Option<Seq<char>>)> {
    seq![
        ("CANO"@, Some(cano)),
        ("ACNT_PRDT_CD"@, Some(acnt_prdt_cd)),
        ("BOND_SRNO"@, Some(bond_srno)),
        ("ORD_QTY"@, Some(ord_qty)),
        ("ORD_PRIC"@, Some(ord_pric)),
    ]
}

impl BondBuyRequest {
    /// The members of the request as they are written, in their order.
    pub open spec fn members(&self) -> Seq<(Seq<char>, Option<Seq<char>>)> {
        bond_buy_members(
            self.cano@,
            self.acnt_prdt_cd@,
            self.bond_srno@,
            self.ord_qty@,
            self.ord_pric@,
        )
    }

    /// The request as the JSON text that is sent and signed.
    pub fn to_json(&self) -> (r: String)
        ensures
            r@ == object_text(self.members()),
    {
        let mut members: Vec<Member> = Vec::new();
        members.push(text_member("CANO", self.cano.as_str()));
        members.push(text_member("ACNT_PRDT_CD", self.acnt_prdt_cd.as_str()));
        members.push(text_member("BOND_SRNO", self.bond_srno.as_str()));
        members.push(text_member("ORD_QTY", self.ord_qty.as_str()));
        members.push(text_member("ORD_PRIC", self.ord_pric.as_str()));
        assert(members_view(members@) =~= self.members());
        write_object(&members)
    }
}

/// An order to sell a bond.
#[derive(Debug, Clone)]
pub struct BondSellRequest {
    /// Account: the first eight digits of the account number.
    pub cano: String,
    /// Product code: the last two digits of the account number.
    pub acnt_prdt_cd: String,
    /// Serial number of the bond.
    pub bond_srno: String,
    /// Quantity.
    pub ord_qty: String,
    /// Price.
    pub ord_pric: String,
}

/// The members of a [`BondSellRequest`] as they are written, in their order.
pub open spec fn bond_sell_members(
    cano: Seq<char>,
    acnt_prdt_cd: Seq<char>,
    bond_srno: Seq<char>,
    ord_qty: Seq<char>,
    ord_pric: Seq<char>,
) -> Seq<(Seq<char>, Option<Seq<char>>)> {
    seq![
        ("CANO"@, Some(cano)),
        ("ACNT_PRDT_CD"@, Some(acnt_prdt_cd)),
        ("BOND_SRNO"@, Some(bond_srno)),
        ("ORD_QTY"@, Some(ord_qty)),
        ("ORD_PRIC"@, Some(ord_pric)),
    ]
}

impl BondSellRequest {
    /// The members of the request as they are written, in their order.
    pub open spec fn members(&self) -> Seq<(Seq<char>, Option<Seq<char>>)> {
        bond_sell_members(
            self.cano@,
            self.acnt_prdt_cd@,
            self.bond_srno@,
            self.ord_qty@,
            self.ord_pric@,
        )
    }

    /// The request as the JSON text that is sent and signed.
    pub fn to_json(&self) -> (r: String)
        ensures
            r@ == object_text(self.members()),
    {
        let mut members: Vec<Member> = Vec::new();
        members.push(text_member("CANO", self.cano.as_str()));
        members.push(text_member("ACNT_PRDT_CD", self.acnt_prdt_cd.as_str()));
        members.push(text_member("BOND_SRNO", self.bond_srno.as_str()));
        members.push(text_member("ORD_QTY", self.ord_qty.as_str()));
        members.push(text_member("ORD_PRIC", self.ord_pric.as_str()));
        assert(members_view(members@) =~= self.members());
        write_object(&members)
    }
}

/// A revision or a cancellation of a bond order.
#[derive(Debug, Clone)]
pub struct BondOrderReviseRequest {
    /// Account: the first eight digits of the account number.
    pub cano: String,
    /// Product code: the last two digits of the account number.
    pub acnt_prdt_cd: String,
    /// Number of the organisation that forwarded the order to the exchange.
    pub krx_fwdg_ord_orgno: String,
    /// Number of the order to revise or cancel.
    pub orgn_odno: String,
    /// 01 to revise, 02 to cancel.
    pub ord_dvsn: String,
    /// Revised quantity; 0 for a cancellation.
    pub rvse_qty: Option<String>,
    /// Revised price; none for a cancellation.
    pub rvse_pric: Option<String>,
}

/// The members of a [`BondOrderReviseRequest`] as they are written, in their order.
pub open spec fn bond_order_revise_members(
    cano: Seq<char>,
    acnt_prdt_cd: Seq<char>,
    krx_fwdg_ord_orgno: Seq<char>,
    orgn_odno: Seq<char>,
    ord_dvsn: Seq<char>,
    rvse_qty: Option<Seq<char>>,
    rvse_pric: Option<Seq<char>>,
) -> Seq<(Seq<char>, Option<Seq<char>>)> {
    seq![
        ("CANO"@, Some(cano)),
        ("ACNT_PRDT_CD"@, Some(acnt_prdt_cd)),
        ("KRX_FWDG_ORD_ORGNO"@, Some(krx_fwdg_ord_orgno)),
        ("ORGN_ODNO"@, Some(orgn_odno)),
        ("ORD_DVSN"@, Some(ord_dvsn)),
        ("RVSE_QTY"@, rvse_qty),
        ("RVSE_PRIC"@, rvse_pric),
    ]
}

impl BondOrderReviseRequest {
    /// The members of the request as they are written, in their order.
    pub open spec fn members(&self) -> Seq<(Seq<char>, Option<Seq<char>>)> {
        bond_order_revise_members(
            self.cano@,
            self.acnt_prdt_cd@,
            self.krx_fwdg_ord_orgno@,
            self.orgn_odno@,
            self.ord_dvsn@,
            opt_view(self.rvse_qty),
            opt_view(self.rvse_pric),
        )
    }

    /// The request as the JSON text that is sent and signed.
    pub fn to_json(&self) -> (r: String)
        ensures
            r@ == object_text(self.members()),
    {
        let mut members: Vec<Member> = Vec::new();
        members.push(text_member("CANO", self.cano.as_str()));
        members.push(text_member("ACNT_PRDT_CD", self.acnt_prdt_cd.as_str()));
        members.push(text_member("KRX_FWDG_ORD_ORGNO", self.krx_fwdg_ord_orgno.as_str()));
        members.push(text_member("ORGN_ODNO", self.orgn_odno.as_str()));
        members.push(text_member("ORD_DVSN", self.ord_dvsn.as_str()));
        members.push(optional_member("RVSE_QTY", &self.rvse_qty));
        members.push(optional_member("RVSE_PRIC", &self.rvse_pric));
        assert(members_view(members@) =~= self.members());
        write_object(&members)
    }
}

/// What the remote system answers to a bond order.
#[derive(Debug, Clone)]
pub struct BondOrderResponse {
    /// Number of the organisation that forwarded the order to the exchange.
    pub krx_fwdg_ord_orgno: Option<String>,
    /// Order number.
    pub odno: Option<String>,
    /// Time of the order.
    pub ord_tmd: Option<String>,
}

impl Payload for BondOrderResponse {
    open spec fn readable(value: serde_json::Value) -> bool {
        &&& json_is_object(value)
        &&& optional_ok(value, "KRX_FWDG_ORD_ORGNO"@)
        &&& optional_ok(value, "ODNO"@)
        &&& optional_ok(value, "ORD_TMD"@)
    }

    open spec fn holds(&self, value: serde_json::Value) -> bool {
        &&& opt_view(self.krx_fwdg_ord_orgno) == optional_of(value, "KRX_FWDG_ORD_ORGNO"@)
        &&& opt_view(self.odno) == optional_of(value, "ODNO"@)
        &&& opt_view(self.ord_tmd) == optional_of(value, "ORD_TMD"@)
    }

    fn from_json(value: &serde_json::Value) -> (r: Option<Self>) {
        if !is_object(value) {
            return None;
        }
        let krx_fwdg_ord_orgno = match optional_text(value, "KRX_FWDG_ORD_ORGNO") {
            Ok(t) => t,
            Err(_) => {
                return None;
            },
        };
        let odno = match optional_text(value, "ODNO") {
            Ok(t) => t,
            Err(_) => {
                return None;
            },
        };
        let ord_tmd = match optional_text(value, "ORD_TMD") {
            Ok(t) => t,
            Err(_) => {
                return None;
            },
        };
        Some(BondOrderResponse { krx_fwdg_ord_orgno, odno, ord_tmd })
    }
}

/// One bond holding of the account.
#[derive(Debug, Clone)]
pub struct BondBalance {
    /// Product number.
    pub pdno: Option<String>,
    /// Name of the product.
    pub prdt_name: Option<String>,
    /// Quantity held.
    pub hldg_qty: Option<String>,
    /// Average price of purchase.
    pub pchs_avg_pric: Option<String>,
    /// Amount of purchase.
    pub pchs_amt: Option<String>,
    /// Current price.
    pub prpr: Option<String>,
    /// Valuation.
    pub evlu_amt: Option<String>,
    /// Valuation profit or loss.
    pub evlu_pfls_amt: Option<String>,
    /// Valuation profit or loss, as a rate.
    pub evlu_pfls_rt: Option<String>,
    /// Date of maturity.
    pub expr_dt: Option<String>,
}

impl Payload for BondBalance {
    open spec fn readable(value: serde_json::Value) -> bool {
        &&& json_is_object(value)
        &&& optional_ok(value, "PDNO"@)
        &&& optional_ok(value, "PRDT_NAME"@)
        &&& optional_ok(value, "HLDG_QTY"@)
        &&& optional_ok(value, "PCHS_AVG_PRIC"@)
        &&& optional_ok(value, "PCHS_AMT"@)
        &&& optional_ok(value, "PRPR"@)
        &&& optional_ok(value, "EVLU_AMT"@)
        &&& optional_ok(value, "EVLU_PFLS_AMT"@)
        &&& optional_ok(value, "EVLU_PFLS_RT"@)
        &&& optional_ok(value, "EXPR_DT"@)
    }

    open spec fn holds(&self, value: serde_json::Value) -> bool {
        &&& opt_view(self.pdno) == optional_of(value, "PDNO"@)
        &&& opt_view(self.prdt_name) == optional_of(value, "PRDT_NAME"@)
        &&& opt_view(self.hldg_qty) == optional_of(value, "HLDG_QTY"@)
        &&& opt_view(self.pchs_avg_pric) == optional_of(value, "PCHS_AVG_PRIC"@)
        &&& opt_view(self.pchs_amt) == optional_of(value, "PCHS_AMT"@)
        &&& opt_view(self.prpr) == optional_of(value, "PRPR"@)
        &&& opt_view(self.evlu_amt) == optional_of(value, "EVLU_AMT"@)
        &&& opt_view(self.evlu_pfls_amt) == optional_of(value, "EVLU_PFLS_AMT"@)
        &&& opt_view(self.evlu_pfls_rt) == optional_of(value, "EVLU_PFLS_RT"@)
        &&& opt_view(self.expr_dt) == optional_of(value, "EXPR_DT"@)
    }

    fn from_json(value: &serde_json::Value) -> (r: Option<Self>) {
        if !is_object(value) {
            return None;
        }
        let pdno = match optional_text(value, "PDNO") {
            Ok(t) => t,
            Err(_) => {
                return None;
            },
        };
        let prdt_name = match optional_text(value, "PRDT_NAME") {
            Ok(t) => t,
            Err(_) => {
                return None;
            },
        };
        let hldg_qty = match optional_text(value, "HLDG_QTY") {
            Ok(t) => t,
            Err(_) => {
                return None;
            },
        };
        let pchs_avg_pric = match optional_text(value, "PCHS_AVG_PRIC") {
            Ok(t) => t,
            Err(_) => {
                return None;
            },
        };
        let pchs_amt = match optional_text(value, "PCHS_AMT") {
            Ok(t) => t,
            Err(_) => {
                return None;
            },
        };
        let prpr = match optional_text(value, "PRPR") {
            Ok(t) => t,
            Err(_) => {
                return None;
            },
        };
        let evlu_amt = match optional_text(value, "EVLU_AMT") {
            Ok(t) => t,
            Err(_) => {
                return None;
            },
        };
        let evlu_pfls_amt = match optional_text(value, "EVLU_PFLS_AMT") {
            Ok(t) => t,
            Err(_) => {
                return None;
            },
        };
        let evlu_pfls_rt = match optional_text(value, "EVLU_PFLS_RT") {
            Ok(t) => t,
            Err(_) => {
                return None;
            },
        };
        let expr_dt = match optional_text(value, "EXPR_DT") {
            Ok(t) => t,
            Err(_) => {
                return None;
            },
        };
        Some(
            BondBalance {
                pdno,
                prdt_name,
                hldg_qty,
                pchs_avg_pric,
                pchs_amt,
                prpr,
                evlu_amt,
                evlu_pfls_amt,
                evlu_pfls_rt,
                expr_dt,
            },
        )
    }
}

/// The asking and bidding prices of a bond, five on each side.
#[derive(Debug, Clone)]
pub struct BondQuote {
    /// Serial number of the bond.
    pub bond_srno: Option<String>,
    /// Name of the bond.
    pub bond_nm: Option<String>,
    /// Best ask price.
    pub askp1: Option<String>,
    /// Best bid price.
    pub bidp1: Option<String>,
    /// Quantity at the best ask price.
    pub askp_rsqn1: Option<String>,
    /// Quantity at the best bid price.
    pub bidp_rsqn1: Option<String>,
    /// Second ask price.
    pub askp2: Option<String>,
    /// Second bid price.
    pub bidp2: Option<String>,
    /// Quantity at the second ask price.
    pub askp_rsqn2: Option<String>,
    /// Quantity at the second bid price.
    pub bidp_rsqn2: Option<String>,
    /// Third ask price.
    pub askp3: Option<String>,
    /// Third bid price.
    pub bidp3: Option<String>,
    /// Quantity at the third ask price.
    pub askp_rsqn3: Option<String>,
    /// Quantity at the third bid price.
    pub bidp_rsqn3: Option<String>,
    /// Fourth ask price.
    pub askp4: Option<String>,
    /// Fourth bid price.
    pub bidp4: Option<String>,
    /// Quantity at the fourth ask price.
    pub askp_rsqn4: Option<String>,
    /// Quantity at the fourth bid price.
    pub bidp_rsqn4: Option<String>,
    /// Fifth ask price.
    pub askp5: Option<String>,
    /// Fifth bid price.
    pub bidp5: Option<String>,
    /// Quantity at the fifth ask price.
    pub askp_rsqn5: Option<String>,
    /// Quantity at the fifth bid price.
    pub bidp_rsqn5: Option<String>,
}

impl Payload for BondQuote {
    open spec fn readable(value: serde_json::Value) -> bool {
        &&& json_is_object(value)
        &&& optional_ok(value, "BOND_SRNO"@)
        &&& optional_ok(value, "BOND_NM"@)
        &&& optional_ok(value, "ASKP1"@)
        &&& optional_ok(value, "BIDP1"@)
        &&& optional_ok(value, "ASKP_RSQN1"@)
        &&& optional_ok(value, "BIDP_RSQN1"@)
        &&& optional_ok(value, "ASKP2"@)
        &&& optional_ok(value, "BIDP2"@)
        &&& optional_ok(value, "ASKP_RSQN2"@)
        &&& optional_ok(value, "BIDP_RSQN2"@)
        &&& optional_ok(value, "ASKP3"@)
        &&& optional_ok(value, "BIDP3"@)
        &&& optional_ok(value, "ASKP_RSQN3"@)
        &&& optional_ok(value, "BIDP_RSQN3"@)
        &&& optional_ok(value, "ASKP4"@)
        &&& optional_ok(value, "BIDP4"@)
        &&& optional_ok(value, "ASKP_RSQN4"@)
        &&& optional_ok(value, "BIDP_RSQN4"@)
        &&& optional_ok(value, "ASKP5"@)
        &&& optional_ok(value, "BIDP5"@)
        &&& optional_ok(value, "ASKP_RSQN5"@)
        &&& optional_ok(value, "BIDP_RSQN5"@)
    }

    open spec fn holds(&self, value: serde_json::Value) -> bool {
        &&& opt_view(self.bond_srno) == optional_of(value, "BOND_SRNO"@)
        &&& opt_view(self.bond_nm) == optional_of(value, "BOND_NM"@)
        &&& opt_view(self.askp1) == optional_of(value, "ASKP1"@)
        &&& opt_view(self.bidp1) == optional_of(value, "BIDP1"@)
        &&& opt_view(self.askp_rsqn1) == optional_of(value, "ASKP_RSQN1"@)
        &&& opt_view(self.bidp_rsqn1) == optional_of(value, "BIDP_RSQN1"@)
        &&& opt_view(self.askp2) == optional_of(value, "ASKP2"@)
        &&& opt_view(self.bidp2) == optional_of(value, "BIDP2"@)
        &&& opt_view(self.askp_rsqn2) == optional_of(value, "ASKP_RSQN2"@)
        &&& opt_view(self.bidp_rsqn2) == optional_of(value, "BIDP_RSQN2"@)
        &&& opt_view(self.askp3) == optional_of(value, "ASKP3"@)
        &&& opt_view(self.bidp3) == optional_of(value, "BIDP3"@)
        &&& opt_view(self.askp_rsqn3) == optional_of(value, "ASKP_RSQN3"@)
        &&& opt_view(self.bidp_rsqn3) == optional_of(value, "BIDP_RSQN3"@)
        &&& opt_view(self.askp4) == optional_of(value, "ASKP4"@)
        &&& opt_view(self.bidp4) == optional_of(value, "BIDP4"@)
        &&& opt_view(self.askp_rsqn4) == optional_of(value, "ASKP_RSQN4"@)
        &&& opt_view(self.bidp_rsqn4) == optional_of(value, "BIDP_RSQN4"@)
        &&& opt_view(self.askp5) == optional_of(value, "ASKP5"@)
        &&& opt_view(self.bidp5) == optional_of(value, "BIDP5"@)
        &&& opt_view(self.askp_rsqn5) == optional_of(value, "ASKP_RSQN5"@)
        &&& opt_view(self.bidp_rsqn5) == optional_of(value, "BIDP_RSQN5"@)
    }

    fn from_json(value: &serde_json::Value) -> (r: Option<Self>) {
        if !is_object(value) {
            return None;
        }
        let bond_srno = match optional_text(value, "BOND_SRNO") {
            Ok(t) => t,
            Err(_) => {
                return None;
            },
        };
        let bond_nm = match optional_text(value, "BOND_NM") {
            Ok(t) => t,
            Err(_) => {
                return None;
            },
        };
        let askp1 = match optional_text(value, "ASKP1") {
            Ok(t) => t,
            Err(_) => {
                return None;
            },
        };
        let bidp1 = match optional_text(value, "BIDP1") {
            Ok(t) => t,
            Err(_) => {
                return None;
            },
        };
        let askp_rsqn1 = match optional_text(value, "ASKP_RSQN1") {
            Ok(t) => t,
            Err(_) => {
                return None;
            },
        };
        let bidp_rsqn1 = match optional_text(value, "BIDP_RSQN1") {
            Ok(t) => t,
            Err(_) => {
                return None;
            },
        };
        let askp2 = match optional_text(value, "ASKP2") {
            Ok(t) => t,
            Err(_) => {
                return None;
            },
        };
        let bidp2 = match optional_text(value, "BIDP2") {
            Ok(t) => t,
            Err(_) => {
                return None;
            },
        };
        let askp_rsqn2 = match optional_text(value, "ASKP_RSQN2") {
            Ok(t) => t,
            Err(_) => {
                return None;
            },
        };
        let bidp_rsqn2 = match optional_text(value, "BIDP_RSQN2") {
            Ok(t) => t,
            Err(_) => {
                return None;
            },
        };
        let askp3 = match optional_text(value, "ASKP3") {
            Ok(t) => t,
            Err(_) => {
                return None;
            },
        };
        let bidp3 = match optional_text(value, "BIDP3") {
            Ok(t) => t,
            Err(_) => {
                return None;
            },
        };
        let askp_rsqn3 = match optional_text(value, "ASKP_RSQN3") {
            Ok(t) => t,
            Err(_) => {
                return None;
            },
        };
        let bidp_rsqn3 = match optional_text(value, "BIDP_RSQN3") {
            Ok(t) => t,
            Err(_) => {
                return None;
            },
        };
        let askp4 = match optional_text(value, "ASKP4") {
            Ok(t) => t,
            Err(_) => {
                return None;
            },
        };
        let bidp4 = match optional_text(value, "BIDP4") {
            Ok(t) => t,
            Err(_) => {
                return None;
            },
        };
        let askp_rsqn4 = match optional_text(value, "ASKP_RSQN4") {
            Ok(t) => t,
            Err(_) => {
                return None;
            },
        };
        let bidp_rsqn4 = match optional_text(value, "BIDP_RSQN4") {
            Ok(t) => t,
            Err(_) => {
                return None;
            },
        };
        let askp5 = match optional_text(value, "ASKP5") {
            Ok(t) => t,
            Err(_) => {
                return None;
            },
        };
        let bidp5 = match optional_text(value, "BIDP5") {
            Ok(t) => t,
            Err(_) => {
                return None;
            },
        };
        let askp_rsqn5 = match optional_text(value, "ASKP_RSQN5") {
            Ok(t) => t,
            Err(_) => {
                return None;
            },
        };
        let bidp_rsqn5 = match optional_text(value, "BIDP_RSQN5") {
            Ok(t) => t,
            Err(_) => {
                return None;
            },
        };
        Some(
            BondQuote {
                bond_srno,
                bond_nm,
                askp1,
                bidp1,
                askp_rsqn1,
                bidp_rsqn1,
                askp2,
                bidp2,
                askp_rsqn2,
                bidp_rsqn2,
                askp3,
                bidp3,
                askp_rsqn3,
                bidp_rsqn3,
                askp4,
                bidp4,
                askp_rsqn4,
                bidp_rsqn4,
                askp5,
                bidp5,
                askp_rsqn5,
                bidp_rsqn5,
            },
        )
    }
}

/// The current price of a bond.
#[derive(Debug, Clone)]
pub struct BondPrice {
    /// Serial number of the bond.
    pub bond_srno: Option<String>,
    /// Name of the bond.
    pub bond_nm: Option<String>,
    /// Current price.
    pub stck_prpr: Option<String>,
    /// Change from the day before.
    pub prdy_vrss: Option<String>,
    /// Sign of the change from the day before.
    pub prdy_vrss_sign: Option<String>,
    /// Change from the day before, as a rate.
    pub prdy_ctrt: Option<String>,
    /// Accumulated volume.
    pub acml_vol: Option<String>,
    /// Accumulated turnover.
    pub acml_tr_pbmn: Option<String>,
    /// Opening price.
    pub stck_oprc: Option<String>,
    /// Highest price.
    pub stck_hgpr: Option<String>,
    /// Lowest price.
    pub stck_lwpr: Option<String>,
    /// Date of maturity.
    pub expr_dt: Option<String>,
    /// Coupon rate.
    pub srfc_inrt: Option<String>,
}

impl Payload for BondPrice {
    open spec fn readable(value: serde_json::Value) -> bool {
        &&& json_is_object(value)
        &&& optional_ok(value, "BOND_SRNO"@)
        &&& optional_ok(value, "BOND_NM"@)
        &&& optional_ok(value, "STCK_PRPR"@)
        &&& optional_ok(value, "PRDY_VRSS"@)
        &&& optional_ok(value, "PRDY_VRSS_SIGN"@)
        &&& optional_ok(value, "PRDY_CTRT"@)
        &&& optional_ok(value, "ACML_VOL"@)
        &&& optional_ok(value, "ACML_TR_PBMN"@)
        &&& optional_ok(value, "STCK_OPRC"@)
        &&& optional_ok(value, "STCK_HGPR"@)
        &&& optional_ok(value, "STCK_LWPR"@)
        &&& optional_ok(value, "EXPR_DT"@)
        &&& optional_ok(value, "SRFC_INRT"@)
    }

    open spec fn holds(&self, value: serde_json::Value) -> bool {
        &&& opt_view(self.bond_srno) == optional_of(value, "BOND_SRNO"@)
        &&& opt_view(self.bond_nm) == optional_of(value, "BOND_NM"@)
        &&& opt_view(self.stck_prpr) == optional_of(value, "STCK_PRPR"@)
        &&& opt_view(self.prdy_vrss) == optional_of(value, "PRDY_VRSS"@)
        &&& opt_view(self.prdy_vrss_sign) == optional_of(value, "PRDY_VRSS_SIGN"@)
        &&& opt_view(self.prdy_ctrt) == optional_of(value, "PRDY_CTRT"@)
        &&& opt_view(self.acml_vol) == optional_of(value, "ACML_VOL"@)
        &&& opt_view(self.acml_tr_pbmn) == optional_of(value, "ACML_TR_PBMN"@)
        &&& opt_view(self.stck_oprc) == optional_of(value, "STCK_OPRC"@)
        &&& opt_view(self.stck_hgpr) == optional_of(value, "STCK_HGPR"@)
        &&& opt_view(self.stck_lwpr) == optional_of(value, "STCK_LWPR"@)
        &&& opt_view(self.expr_dt) == optional_of(value, "EXPR_DT"@)
        &&& opt_view(self.srfc_inrt) == optional_of(value, "SRFC_INRT"@)
    }

    fn from_json(value: &serde_json::Value) -> (r: Option<Self>) {
        if !is_object(value) {
            return None;
        }
        let bond_srno = match optional_text(value, "BOND_SRNO") {
            Ok(t) => t,
            Err(_) => {
                return None;
            },
        };
        let bond_nm = match optional_text(value, "BOND_NM") {
            Ok(t) => t,
            Err(_) => {
                return None;
            },
        };
        let stck_prpr = match optional_text(value, "STCK_PRPR") {
            Ok(t) => t,
            Err(_) => {
                return None;
            },
        };
        let prdy_vrss = match optional_text(value, "PRDY_VRSS") {
            Ok(t) => t,
            Err(_) => {
                return None;
            },
        };
        let prdy_vrss_sign = match optional_text(value, "PRDY_VRSS_SIGN") {
            Ok(t) => t,
            Err(_) => {
                return None;
            },
        };
        let prdy_ctrt = match optional_text(value, "PRDY_CTRT") {
            Ok(t) => t,
            Err(_) => {
                return None;
            },
        };
        let acml_vol = match optional_text(value, "ACML_VOL") {
            Ok(t) => t,
            Err(_) => {
                return None;
            },
        };
        let acml_tr_pbmn = match optional_text(value, "ACML_TR_PBMN") {
            Ok(t) => t,
            Err(_) => {
                return None;
            },
        };
        let stck_oprc = match optional_text(value, "STCK_OPRC") {
            Ok(t) => t,
            Err(_) => {
                return None;
            },
        };
        let stck_hgpr = match optional_text(value, "STCK_HGPR") {
            Ok(t) => t,
            Err(_) => {
                return None;
            },
        };
        let stck_lwpr = match optional_text(value, "STCK_LWPR") {
            Ok(t) => t,
            Err(_) => {
                return None;
            },
        };
        let expr_dt = match optional_text(value, "EXPR_DT") {
            Ok(t) => t,
            Err(_) => {
                return None;
            },
        };
        let srfc_inrt = match optional_text(value, "SRFC_INRT") {
            Ok(t) => t,
            Err(_) => {
                return None;
            },
        };
        Some(
            BondPrice {
                bond_srno,
                bond_nm,
                stck_prpr,
                prdy_vrss,
                prdy_vrss_sign,
                prdy_ctrt,
                acml_vol,
                acml_tr_pbmn,
                stck_oprc,
                stck_hgpr,
                stck_lwpr,
                expr_dt,
                srfc_inrt,
            },
        )
    }
}

/// The call that [`KisClient::bond_buy`] makes.
pub open spec fn bond_buy_call(
    config: KisConfigView,
    bond_srno: Seq<char>,
    qty: u32,
    price: Seq<char>,
) -> DomainCallView {
    DomainCallView::Mutating {
        path: "/uapi/domestic-bond/v1/trading/buy"@,
        tr_id: tr_id_of(config.is_paper, "TTCB1101U"@, "VTCB1101U"@),
        body: object_text(
            bond_buy_members(
                config.cano(),
                config.acnt_prdt_cd(),
                bond_srno,
                decimal(qty as nat),
                price,
            ),
        ),
    }
}

/// The call that [`KisClient::bond_sell`] makes.
pub open spec fn bond_sell_call(
    config: KisConfigView,
    bond_srno: Seq<char>,
    qty: u32,
    price: Seq<char>,
) -> DomainCallView {
    DomainCallView::Mutating {
        path: "/uapi/domestic-bond/v1/trading/sell"@,
        tr_id: tr_id_of(config.is_paper, "TTCB1201U"@, "VTCB1201U"@),
        body: object_text(
            bond_sell_members(
                config.cano(),
                config.acnt_prdt_cd(),
                bond_srno,
                decimal(qty as nat),
                price,
            ),
        ),
    }
}

/// The call that [`KisClient::bond_revise_order`] makes.
pub open spec fn bond_revise_order_call(
    config: KisConfigView,
    krx_fwdg_ord_orgno: Seq<char>,
    orgn_odno: Seq<char>,
    qty: u32,
    price: Seq<char>,
) -> DomainCallView {
    DomainCallView::Mutating {
        path: "/uapi/domestic-bond/v1/trading/order-rvsecncl"@,
        tr_id: tr_id_of(config.is_paper, "TTCB1301U"@, "VTCB1301U"@),
        body: object_text(
            bond_order_revise_members(
                config.cano(),
                config.acnt_prdt_cd(),
                krx_fwdg_ord_orgno,
                orgn_odno,
                "01"@,
                Some(decimal(qty as nat)),
                Some(price),
            ),
        ),
    }
}

/// The call that [`KisClient::bond_cancel_order`] makes.
pub open spec fn bond_cancel_order_call(
    config: KisConfigView,
    krx_fwdg_ord_orgno: Seq<char>,
    orgn_odno: Seq<char>,
) -> DomainCallView {
    DomainCallView::Mutating {
        path: "/uapi/domestic-bond/v1/trading/order-rvsecncl"@,
        tr_id: tr_id_of(config.is_paper, "TTCB1301U"@, "VTCB1301U"@),
        body: object_text(
            bond_order_revise_members(
                config.cano(),
                config.acnt_prdt_cd(),
                krx_fwdg_ord_orgno,
                orgn_odno,
                "02"@,
                Some("0"@),
                None,
            ),
        ),
    }
}

/// The call that [`KisClient::bond_get_balance`] makes.
pub open spec fn bond_get_balance_call(
    config: KisConfigView,
) -> DomainCallView {
    DomainCallView::Read {
        path: "/uapi/domestic-bond/v1/trading/inquire-balance"@,
        tr_id: tr_id_of(config.is_paper, "CTCB8001R"@, "VTCB8001R"@),
        query: Some(
            "CANO="@ + config.cano() + "&ACNT_PRDT_CD="@ + config.acnt_prdt_cd()
                + "&AFHR_FLPR_YN=N&OFL_YN=N&INQR_DVSN=01&UNPR_DVSN=01&FUND_STTL_ICLD_YN=N&FNCG_AMT_AUTO_RDPT_YN=N&PRCS_DVSN=00&CTX_AREA_FK100=&CTX_AREA_NK100="@,
        ),
    }
}

/// The call that [`KisClient::bond_get_quote`] makes.
pub open spec fn bond_get_quote_call(
    config: KisConfigView,
    bond_srno: Seq<char>,
) -> DomainCallView {
    DomainCallView::Read {
        path: "/uapi/domestic-bond/v1/quotations/inquire-asking-price"@,
        tr_id: tr_id_of(config.is_paper, "CTCB3001R"@, "VTCB3001R"@),
        query: Some("BOND_SRNO="@ + bond_srno),
    }
}

/// The call that [`KisClient::bond_get_price`] makes.
pub open spec fn bond_get_price_call(
    config: KisConfigView,
    bond_srno: Seq<char>,
) -> DomainCallView {
    DomainCallView::Read {
        path: "/uapi/domestic-bond/v1/quotations/inquire-price"@,
        tr_id: tr_id_of(config.is_paper, "CTCB3002R"@, "VTCB3002R"@),
        query: Some("BOND_SRNO="@ + bond_srno),
    }
}

impl KisClient {
    /// Orders to buy `qty` of the bond `bond_srno` at `price`.
    pub fn bond_buy(
        &mut self,
        state: &mut CallState,
        reply: Option<HttpResponse>,
        now: u64,
        bond_srno: &str,
        qty: u32,
        price: &str,
    ) -> (r: Outcome<BondOrderResponse>)
        requires
            old(self)@.config.account_ready(),
        ensures
            ({
                let step = old(self)@.call(
                    old(state)@,
                    opt_response(reply),
                    now,
                    bond_buy_call(old(self)@.config, bond_srno@, qty, price@),
                );
                &&& final(self)@ == step.client
                &&& final(state)@ == step.stage
                &&& single_outcome(step.outcome, r)
            }),
    {
        let request = BondBuyRequest {
            cano: self.cano().to_owned(),
            acnt_prdt_cd: self.acnt_prdt_cd().to_owned(),
            bond_srno: bond_srno.to_owned(),
            ord_qty: decimal_text(qty as u64),
            ord_pric: price.to_owned(),
        };
        let tr_id = if self.is_paper() {
            "VTCB1101U"
        } else {
            "TTCB1101U"
        };
        let call = DomainCall::mutating(
            "/uapi/domestic-bond/v1/trading/buy",
            tr_id,
            request.to_json(),
        );
        self.call_single(state, reply, now, &call)
    }

    /// Orders to sell `qty` of the bond `bond_srno` at `price`.
    pub fn bond_sell(
        &mut self,
        state: &mut CallState,
        reply: Option<HttpResponse>,
        now: u64,
        bond_srno: &str,
        qty: u32,
        price: &str,
    ) -> (r: Outcome<BondOrderResponse>)
        requires
            old(self)@.config.account_ready(),
        ensures
            ({
                let step = old(self)@.call(
                    old(state)@,
                    opt_response(reply),
                    now,
                    bond_sell_call(old(self)@.config, bond_srno@, qty, price@),
                );
                &&& final(self)@ == step.client
                &&& final(state)@ == step.stage
                &&& single_outcome(step.outcome, r)
            }),
    {
        let request = BondSellRequest {
            cano: self.cano().to_owned(),
            acnt_prdt_cd: self.acnt_prdt_cd().to_owned(),
            bond_srno: bond_srno.to_owned(),
            ord_qty: decimal_text(qty as u64),
            ord_pric: price.to_owned(),
        };
        let tr_id = if self.is_paper() {
            "VTCB1201U"
        } else {
            "TTCB1201U"
        };
        let call = DomainCall::mutating(
            "/uapi/domestic-bond/v1/trading/sell",
            tr_id,
            request.to_json(),
        );
        self.call_single(state, reply, now, &call)
    }

    /// Revises the bond order `orgn_odno` to `qty` at `price`.
    pub fn bond_revise_order(
        &mut self,
        state: &mut CallState,
        reply: Option<HttpResponse>,
        now: u64,
        krx_fwdg_ord_orgno: &str,
        orgn_odno: &str,
        qty: u32,
        price: &str,
    ) -> (r: Outcome<BondOrderResponse>)
        requires
            old(self)@.config.account_ready(),
        ensures
            ({
                let step = old(self)@.call(
                    old(state)@,
                    opt_response(reply),
                    now,
                    bond_revise_order_call(
                        old(self)@.config,
                        krx_fwdg_ord_orgno@,
                        orgn_odno@,
                        qty,
                        price@,
                    ),
                );
                &&& final(self)@ == step.client
                &&& final(state)@ == step.stage
                &&& single_outcome(step.outcome, r)
            }),
    {
        let request = BondOrderReviseRequest {
            cano: self.cano().to_owned(),
            acnt_prdt_cd: self.acnt_prdt_cd().to_owned(),
            krx_fwdg_ord_orgno: krx_fwdg_ord_orgno.to_owned(),
            orgn_odno: orgn_odno.to_owned(),
            ord_dvsn: "01".to_owned(),
            rvse_qty: Some(decimal_text(qty as u64)),
            rvse_pric: Some(price.to_owned()),
        };
        let tr_id = if self.is_paper() {
            "VTCB1301U"
        } else {
            "TTCB1301U"
        };
        let call = DomainCall::mutating(
            "/uapi/domestic-bond/v1/trading/order-rvsecncl",
            tr_id,
            request.to_json(),
        );
        self.call_single(state, reply, now, &call)
    }

    /// Cancels the bond order `orgn_odno`.
    pub fn bond_cancel_order(
        &mut self,
        state: &mut CallState,
        reply: Option<HttpResponse>,
        now: u64,
        krx_fwdg_ord_orgno: &str,
        orgn_odno: &str,
    ) -> (r: Outcome<BondOrderResponse>)
        requires
            old(self)@.config.account_ready(),
        ensures
            ({
                let step = old(self)@.call(
                    old(state)@,
                    opt_response(reply),
                    now,
                    bond_cancel_order_call(old(self)@.config, krx_fwdg_ord_orgno@, orgn_odno@),
                );
                &&& final(self)@ == step.client
                &&& final(state)@ == step.stage
                &&& single_outcome(step.outcome, r)
            }),
    {
        let request = BondOrderReviseRequest {
            cano: self.cano().to_owned(),
            acnt_prdt_cd: self.acnt_prdt_cd().to_owned(),
            krx_fwdg_ord_orgno: krx_fwdg_ord_orgno.to_owned(),
            orgn_odno: orgn_odno.to_owned(),
            ord_dvsn: "02".to_owned(),
            rvse_qty: Some("0".to_owned()),
            rvse_pric: None,
        };
        let tr_id = if self.is_paper() {
            "VTCB1301U"
        } else {
            "TTCB1301U"
        };
        let call = DomainCall::mutating(
            "/uapi/domestic-bond/v1/trading/order-rvsecncl",
            tr_id,
            request.to_json(),
        );
        self.call_single(state, reply, now, &call)
    }

    /// Asks for the bonds that the account holds.
    pub fn bond_get_balance(
        &mut self,
        state: &mut CallState,
        reply: Option<HttpResponse>,
        now: u64,
    ) -> (r: Outcome<Vec<BondBalance>>)
        requires
            old(self)@.config.account_ready(),
        ensures
            ({
                let step = old(self)@.call(
                    old(state)@,
                    opt_response(reply),
                    now,
                    bond_get_balance_call(old(self)@.config),
                );
                &&& final(self)@ == step.client
                &&& final(state)@ == step.stage
                &&& list_outcome(step.outcome, r)
            }),
    {
        let mut query = String::from_str("CANO=");
        query.append(self.cano());
        query.append("&ACNT_PRDT_CD=");
        query.append(self.acnt_prdt_cd());
        query.append(
            "&AFHR_FLPR_YN=N&OFL_YN=N&INQR_DVSN=01&UNPR_DVSN=01&FUND_STTL_ICLD_YN=N&FNCG_AMT_AUTO_RDPT_YN=N&PRCS_DVSN=00&CTX_AREA_FK100=&CTX_AREA_NK100=",
        );
        let tr_id = if self.is_paper() {
            "VTCB8001R"
        } else {
            "CTCB8001R"
        };
        let call = DomainCall::read(
            "/uapi/domestic-bond/v1/trading/inquire-balance",
            tr_id,
            Some(query.as_str()),
        );
        self.call_list(state, reply, now, &call)
    }

    /// Asks for the asking and bidding prices of the bond `bond_srno`.
    pub fn bond_get_quote(
        &mut self,
        state: &mut CallState,
        reply: Option<HttpResponse>,
        now: u64,
        bond_srno: &str,
    ) -> (r: Outcome<BondQuote>)
        ensures
            ({
                let step = old(self)@.call(
                    old(state)@,
                    opt_response(reply),
                    now,
                    bond_get_quote_call(old(self)@.config, bond_srno@),
                );
                &&& final(self)@ == step.client
                &&& final(state)@ == step.stage
                &&& single_outcome(step.outcome, r)
            }),
    {
        let mut query = String::from_str("BOND_SRNO=");
        query.append(bond_srno);
        let tr_id = if self.is_paper() {
            "VTCB3001R"
        } else {
            "CTCB3001R"
        };
        let call = DomainCall::read(
            "/uapi/domestic-bond/v1/quotations/inquire-asking-price",
            tr_id,
            Some(query.as_str()),
        );
        self.call_single(state, reply, now, &call)
    }

    /// Asks for the current price of the bond `bond_srno`.
    pub fn bond_get_price(
        &mut self,
        state: &mut CallState,
        reply: Option<HttpResponse>,
        now: u64,
        bond_srno: &str,
    ) -> (r: Outcome<BondPrice>)
        ensures
            ({
                let step = old(self)@.call(
                    old(state)@,
                    opt_response(reply),
                    now,
                    bond_get_price_call(old(self)@.config, bond_srno@),
                );
                &&& final(self)@ == step.client
                &&& final(state)@ == step.stage
                &&& single_outcome(step.outcome, r)
            }),
    {
        let mut query = String::from_str("BOND_SRNO=");
        query.append(bond_srno);
        let tr_id = if self.is_paper() {
            "VTCB3002R"
        } else {
            "CTCB3002R"
        };
        let call = DomainCall::read(
            "/uapi/domestic-bond/v1/quotations/inquire-price",
            tr_id,
            Some(query.as_str()),
        );
        self.call_single(state, reply, now, &call)
    }
}

} // verus!
