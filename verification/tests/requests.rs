use broker_korea::headers::Headers;
use broker_korea::http::{HttpMethod, HttpRequest, HttpResponse};
use broker_korea::kis::bond::BondOrderReviseRequest;
use broker_korea::kis::domestic_future::{FutureModifyCancelRequest, FutureOrderAction, FuturePriceType};
use broker_korea::kis::domestic_stock::{BalanceItem, CashOrderResponse, OrderReviseRequest};
use broker_korea::kis::overseas_future::{
    OrderSide as FutureSide, OverseasFutureModifyCancelRequest, OverseasFutureOrderRequest,
    PositionType, PriceType,
};
use broker_korea::kis::overseas_future::tr_id::{
    CLOSE_BUY, CLOSE_SELL, INQUIRE_DEPOSIT, INQUIRE_EXECUTION, INQUIRE_UNSETTLED, MODIFY_CANCEL,
    NEW_BUY, NEW_SELL,
};
use broker_korea::kis::overseas_stock::UsOrderType;
use broker_korea::kis::types::{Exchange, KisConfig, KisError, KisResult, OrderSide, OrderType, Outcome};
use broker_korea::kis::{CallState, DomainCall, KisClient};

const PAPER: &str = "https://openapivts.koreainvestment.com:29443";
const LIVE: &str = "https://openapi.koreainvestment.com:9443";
const TOKEN_BODY: &str = "{\"access_token\":\"tok-1\",\"token_type\":\"Bearer\",\"expires_in\":86400}";
const NOW: u64 = 1_700_000_000;

fn ok(body: &str) -> HttpResponse {
    HttpResponse { status: 200, headers: Headers::new(), body: body.to_string(), error: None }
}

fn session(is_paper: bool) -> KisClient {
    let config = KisConfig::new("key".to_string(), "secret".to_string(), "1234567890".to_string(), is_paper);
    let mut client = KisClient::new(config);
    match client.authenticate(Some(&ok(TOKEN_BODY)), NOW) {
        Outcome::Done(Ok(())) => client,
        _ => panic!("no token"),
    }
}

fn sent<T>(outcome: Outcome<T>) -> HttpRequest {
    match outcome {
        Outcome::Send(request) => request,
        Outcome::Done(_) => panic!("the operation ended where a request was expected"),
    }
}

fn done<T>(outcome: Outcome<T>) -> KisResult<T> {
    match outcome {
        Outcome::Done(result) => result,
        Outcome::Send(request) => panic!("a request to {} where the end was expected", request.url),
    }
}

fn signed() -> Option<HttpResponse> {
    Some(ok("{\"HASH\":\"sig\"}"))
}

fn check_signed_post(request: &HttpRequest, url: &str, tr_id: &str, body: &str) {
    assert_eq!(request.method, HttpMethod::Post);
    assert_eq!(request.url, url);
    assert_eq!(request.headers.get("tr_id"), Some(tr_id));
    assert_eq!(request.headers.get("hashkey"), Some("sig"));
    assert_eq!(request.headers.get("authorization"), Some("Bearer tok-1"));
    assert_eq!(request.headers.get("custtype"), Some("P"));
    assert_eq!(request.body.as_deref(), Some(body));
}

fn check_get(request: &HttpRequest, url: &str, tr_id: &str) {
    assert_eq!(request.method, HttpMethod::Get);
    assert_eq!(request.url, url);
    assert_eq!(request.headers.get("tr_id"), Some(tr_id));
    assert_eq!(request.headers.get("hashkey"), None);
    assert_eq!(request.headers.get("authorization"), Some("Bearer tok-1"));
    assert_eq!(request.body, None);
}

#[test]
fn typed_steps_of_a_call() {
    let mut client = session(true);
    let call = DomainCall::read("/uapi/any", "TR", Some("a=b"));
    let mut state = CallState::new();

    let request = sent(client.call_single::<CashOrderResponse>(&mut state, None, NOW, &call));
    check_get(&request, &format!("{}/uapi/any?a=b", PAPER), "TR");
    let reply = ok("{\"rt_cd\":\"0\",\"msg_cd\":\"OK\",\"msg1\":\"ok\",\"output\":{\"ODNO\":\"9\"}}");
    let order = done(client.call_single::<CashOrderResponse>(&mut state, Some(reply), NOW, &call)).unwrap();
    assert_eq!(order.odno.as_deref(), Some("9"));
    assert!(state.is_fresh());

    sent(client.call_single::<CashOrderResponse>(&mut state, None, NOW, &call));
    let reply = ok("{\"rt_cd\":\"0\",\"msg_cd\":\"OK\",\"msg1\":\"ok\"}");
    assert!(matches!(
        done(client.call_single::<CashOrderResponse>(&mut state, Some(reply), NOW, &call)),
        Err(KisError::MissingPayload)
    ));

    sent(client.call_list::<BalanceItem>(&mut state, None, NOW, &call));
    let reply = ok("{\"rt_cd\":\"0\",\"msg_cd\":\"OK\",\"msg1\":\"ok\"}");
    assert_eq!(done(client.call_list::<BalanceItem>(&mut state, Some(reply), NOW, &call)).unwrap().len(), 0);

    sent(client.call_list::<BalanceItem>(&mut state, None, NOW, &call));
    let reply = ok("{\"rt_cd\":\"E\",\"msg_cd\":\"APBK0013\",\"msg1\":\"Invalid account\",\"output1\":[{}]}");
    match done(client.call_list::<BalanceItem>(&mut state, Some(reply), NOW, &call)) {
        Err(KisError::Remote { code, message }) => {
            assert_eq!(code, "APBK0013");
            assert_eq!(message, "Invalid account");
        }
        _ => panic!("the remote failure was expected"),
    }

    sent(client.call_list::<BalanceItem>(&mut state, None, NOW, &call));
    let reply = HttpResponse { status: 500, headers: Headers::new(), body: "down".to_string(), error: None };
    assert!(matches!(
        done(client.call_list::<BalanceItem>(&mut state, Some(reply), NOW, &call)),
        Err(KisError::Transport { status: 500, .. })
    ));
}

#[test]
fn domestic_buy_from_order_to_result() {
    let mut client = session(true);
    let mut state = CallState::new();
    let body = "{\"CANO\":\"12345678\",\"ACNT_PRDT_CD\":\"90\",\"PDNO\":\"005930\",\"ORD_DVSN\":\"00\",\"ORD_QTY\":\"10\",\"ORD_UNPR\":\"70000\"}";

    let signing = sent(client.domestic_buy(&mut state, None, NOW, "005930", 10, 70000, OrderType::Limit));
    assert_eq!(signing.url, format!("{}/uapi/hashkey", PAPER));
    assert_eq!(signing.body.as_deref(), Some(body));

    let order = sent(client.domestic_buy(&mut state, signed(), NOW, "005930", 10, 70000, OrderType::Limit));
    check_signed_post(&order, &format!("{}/uapi/domestic-stock/v1/trading/order-cash", PAPER), "VTTC0802U", body);

    let reply = ok("{\"rt_cd\":\"0\",\"msg_cd\":\"APBK0013\",\"msg1\":\"ok\",\"output\":{\"ODNO\":\"0000117057\",\"ORD_TMD\":\"121052\"}}");
    let result = done(client.domestic_buy(&mut state, Some(reply), NOW, "005930", 10, 70000, OrderType::Limit)).unwrap();
    assert_eq!(result.odno.as_deref(), Some("0000117057"));
    assert_eq!(result.ord_tmd.as_deref(), Some("121052"));
    assert!(state.is_fresh());
}

#[test]
fn domestic_orders_in_production() {
    let mut client = session(false);
    let mut state = CallState::new();
    sent(client.domestic_buy(&mut state, None, NOW, "005930", 1, 0, OrderType::Market));
    let order = sent(client.domestic_buy(&mut state, signed(), NOW, "005930", 1, 0, OrderType::Market));
    check_signed_post(
        &order,
        &format!("{}/uapi/domestic-stock/v1/trading/order-cash", LIVE),
        "TTTC0802U",
        "{\"CANO\":\"12345678\",\"ACNT_PRDT_CD\":\"90\",\"PDNO\":\"005930\",\"ORD_DVSN\":\"01\",\"ORD_QTY\":\"1\",\"ORD_UNPR\":\"0\"}",
    );
    let mut state = CallState::new();
    sent(client.domestic_sell(&mut state, None, NOW, "000660", 3, 120000, OrderType::BestLimit));
    let order = sent(client.domestic_sell(&mut state, signed(), NOW, "000660", 3, 120000, OrderType::BestLimit));
    check_signed_post(
        &order,
        &format!("{}/uapi/domestic-stock/v1/trading/order-cash", LIVE),
        "TTTC0801U",
        "{\"CANO\":\"12345678\",\"ACNT_PRDT_CD\":\"90\",\"PDNO\":\"000660\",\"ORD_DVSN\":\"03\",\"ORD_QTY\":\"3\",\"ORD_UNPR\":\"120000\"}",
    );
    let mut client = session(true);
    let mut state = CallState::new();
    sent(client.domestic_sell(&mut state, None, NOW, "000660", 3, 120000, OrderType::Limit));
    let order = sent(client.domestic_sell(&mut state, signed(), NOW, "000660", 3, 120000, OrderType::Limit));
    assert_eq!(order.headers.get("tr_id"), Some("VTTC0801U"));
}

#[test]
fn domestic_revisions_and_cancellations() {
    let mut client = session(true);
    let url = format!("{}/uapi/domestic-stock/v1/trading/order-rvsecncl", PAPER);
    let mut state = CallState::new();
    sent(client.domestic_revise_order(&mut state, None, NOW, "0000117057", 5, 69000, OrderType::Limit));
    let request = sent(client.domestic_revise_order(&mut state, signed(), NOW, "0000117057", 5, 69000, OrderType::Limit));
    check_signed_post(
        &request,
        &url,
        "TTTC0803U",
        "{\"CANO\":\"12345678\",\"ACNT_PRDT_CD\":\"90\",\"KRX_FWDG_ORD_ORGNO\":\"\",\"ORGN_ODNO\":\"0000117057\",\"ORD_DVSN\":\"00\",\"RVSE_CNCL_DVSN_CD\":\"01\",\"ORD_QTY\":\"5\",\"ORD_UNPR\":\"69000\",\"QTY_ALL_ORD_YN\":\"N\"}",
    );
    let reply = ok("{\"rt_cd\":\"0\",\"msg_cd\":\"OK\",\"msg1\":\"ok\",\"output\":{\"ODNO\":\"0000117058\"}}");
    let result = done(client.domestic_revise_order(&mut state, Some(reply), NOW, "0000117057", 5, 69000, OrderType::Limit)).unwrap();
    assert_eq!(result.odno.as_deref(), Some("0000117058"));

    let mut state = CallState::new();
    sent(client.domestic_cancel_order(&mut state, None, NOW, "0000117057", 0));
    let request = sent(client.domestic_cancel_order(&mut state, signed(), NOW, "0000117057", 0));
    check_signed_post(
        &request,
        &url,
        "TTTC0803U",
        "{\"CANO\":\"12345678\",\"ACNT_PRDT_CD\":\"90\",\"KRX_FWDG_ORD_ORGNO\":\"\",\"ORGN_ODNO\":\"0000117057\",\"ORD_DVSN\":\"00\",\"RVSE_CNCL_DVSN_CD\":\"02\",\"ORD_QTY\":\"0\",\"ORD_UNPR\":\"0\",\"QTY_ALL_ORD_YN\":\"Y\"}",
    );
    let mut state = CallState::new();
    sent(client.domestic_cancel_order(&mut state, None, NOW, "0000117057", 4));
    let request = sent(client.domestic_cancel_order(&mut state, signed(), NOW, "0000117057", 4));
    check_signed_post(
        &request,
        &url,
        "TTTC0803U",
        "{\"CANO\":\"12345678\",\"ACNT_PRDT_CD\":\"90\",\"KRX_FWDG_ORD_ORGNO\":\"\",\"ORGN_ODNO\":\"0000117057\",\"ORD_DVSN\":\"00\",\"RVSE_CNCL_DVSN_CD\":\"02\",\"ORD_QTY\":\"4\",\"ORD_UNPR\":\"0\",\"QTY_ALL_ORD_YN\":\"N\"}",
    );
    let live = OrderReviseRequest {
        cano: "1".into(),
        acnt_prdt_cd: "2".into(),
        krx_fwdg_ord_orgno: "3".into(),
        orgn_odno: "4".into(),
        ord_dvsn: "5".into(),
        rvse_cncl_dvsn_cd: "6".into(),
        ord_qty: "7".into(),
        ord_unpr: "8".into(),
        qty_all_ord_yn: "9".into(),
    };
    assert_eq!(
        live.to_json(),
        "{\"CANO\":\"1\",\"ACNT_PRDT_CD\":\"2\",\"KRX_FWDG_ORD_ORGNO\":\"3\",\"ORGN_ODNO\":\"4\",\"ORD_DVSN\":\"5\",\"RVSE_CNCL_DVSN_CD\":\"6\",\"ORD_QTY\":\"7\",\"ORD_UNPR\":\"8\",\"QTY_ALL_ORD_YN\":\"9\"}"
    );
}

#[test]
fn domestic_inquiries() {
    let mut client = session(true);
    let mut state = CallState::new();
    let request = sent(client.domestic_balance(&mut state, None, NOW));
    check_get(
        &request,
        &format!("{}/uapi/domestic-stock/v1/trading/inquire-balance?CANO=12345678&ACNT_PRDT_CD=90&AFHR_FLPR_YN=N&INQR_DVSN=02&UNPR_DVSN=01&FUND_STTL_ICLD_YN=N&FNCG_AMT_AUTO_RDPT_YN=N&PRCS_DVSN=00&CTX_AREA_FK100=&CTX_AREA_NK100=", PAPER),
        "VTTC8434R",
    );
    let reply = ok("{\"rt_cd\":\"0\",\"msg_cd\":\"OK\",\"msg1\":\"ok\",\"output1\":[{\"pdno\":\"005930\"}],\"output2\":[{\"dnca_tot_amt\":\"500\"}]}");
    let (rows, totals) = done(client.domestic_balance(&mut state, Some(reply), NOW)).unwrap();
    assert_eq!(rows.len(), 1);
    assert_eq!(totals.dnca_tot_amt.as_deref(), Some("500"));

    let request = sent(client.domestic_current_price(&mut state, None, NOW, "005930"));
    check_get(
        &request,
        &format!("{}/uapi/domestic-stock/v1/quotations/inquire-price?FID_COND_MRKT_DIV_CODE=J&FID_INPUT_ISCD=005930", PAPER),
        "FHKST01010100",
    );
    let reply = ok("{\"rt_cd\":\"0\",\"msg_cd\":\"OK\",\"msg1\":\"ok\",\"output\":{\"stck_prpr\":\"70100\"}}");
    let price = done(client.domestic_current_price(&mut state, Some(reply), NOW, "005930")).unwrap();
    assert_eq!(price.stck_prpr.as_deref(), Some("70100"));

    let mut live = session(false);
    let request = sent(live.domestic_balance(&mut state, None, NOW));
    assert_eq!(request.headers.get("tr_id"), Some("TTTC8434R"));
    let request = sent(live.domestic_current_price(&mut CallState::new(), None, NOW, "005930"));
    assert_eq!(request.headers.get("tr_id"), Some("FHKST01010100"));
}

#[test]
fn a_remote_failure_of_an_order_is_an_error() {
    let mut client = session(true);
    let mut state = CallState::new();
    sent(client.domestic_buy(&mut state, None, NOW, "005930", 10, 70000, OrderType::Limit));
    sent(client.domestic_buy(&mut state, signed(), NOW, "005930", 10, 70000, OrderType::Limit));
    let reply = ok("{\"rt_cd\":\"7\",\"msg_cd\":\"APBK0013\",\"msg1\":\"Invalid account\"}");
    match done(client.domestic_buy(&mut state, Some(reply), NOW, "005930", 10, 70000, OrderType::Limit)) {
        Err(KisError::Remote { code, message }) => {
            assert_eq!(code, "APBK0013");
            assert_eq!(message, "Invalid account");
        }
        _ => panic!("the remote failure was expected"),
    }
    sent(client.domestic_buy(&mut state, None, NOW, "005930", 10, 70000, OrderType::Limit));
    sent(client.domestic_buy(&mut state, signed(), NOW, "005930", 10, 70000, OrderType::Limit));
    let reply = ok("{\"rt_cd\":\"0\",\"msg_cd\":\"OK\",\"msg1\":\"fine\"}");
    assert!(matches!(
        done(client.domestic_buy(&mut state, Some(reply), NOW, "005930", 10, 70000, OrderType::Limit)),
        Err(KisError::MissingPayload)
    ));
}

#[test]
fn bond_orders() {
    let mut client = session(true);
    let mut state = CallState::new();
    let signing = sent(client.bond_buy(&mut state, None, NOW, "KR1234567890", 10, "10000.5"));
    assert_eq!(signing.url, format!("{}/uapi/hashkey", PAPER));
    let request = sent(client.bond_buy(&mut state, signed(), NOW, "KR1234567890", 10, "10000.5"));
    check_signed_post(
        &request,
        &format!("{}/uapi/domestic-bond/v1/trading/buy", PAPER),
        "VTCB1101U",
        "{\"CANO\":\"12345678\",\"ACNT_PRDT_CD\":\"90\",\"BOND_SRNO\":\"KR1234567890\",\"ORD_QTY\":\"10\",\"ORD_PRIC\":\"10000.5\"}",
    );
    let reply = ok("{\"rt_cd\":\"0\",\"msg_cd\":\"OK\",\"msg1\":\"ok\",\"output\":{\"ODNO\":\"55\"}}");
    let result = done(client.bond_buy(&mut state, Some(reply), NOW, "KR1234567890", 10, "10000.5")).unwrap();
    assert_eq!(result.odno.as_deref(), Some("55"));

    sent(client.bond_sell(&mut state, None, NOW, "KR1234567890", 2, "9999"));
    let request = sent(client.bond_sell(&mut state, signed(), NOW, "KR1234567890", 2, "9999"));
    check_signed_post(
        &request,
        &format!("{}/uapi/domestic-bond/v1/trading/sell", PAPER),
        "VTCB1201U",
        "{\"CANO\":\"12345678\",\"ACNT_PRDT_CD\":\"90\",\"BOND_SRNO\":\"KR1234567890\",\"ORD_QTY\":\"2\",\"ORD_PRIC\":\"9999\"}",
    );

    let mut state = CallState::new();
    sent(client.bond_revise_order(&mut state, None, NOW, "06010", "55", 3, "9990"));
    let request = sent(client.bond_revise_order(&mut state, signed(), NOW, "06010", "55", 3, "9990"));
    check_signed_post(
        &request,
        &format!("{}/uapi/domestic-bond/v1/trading/order-rvsecncl", PAPER),
        "VTCB1301U",
        "{\"CANO\":\"12345678\",\"ACNT_PRDT_CD\":\"90\",\"KRX_FWDG_ORD_ORGNO\":\"06010\",\"ORGN_ODNO\":\"55\",\"ORD_DVSN\":\"01\",\"RVSE_QTY\":\"3\",\"RVSE_PRIC\":\"9990\"}",
    );
    let mut state = CallState::new();
    sent(client.bond_cancel_order(&mut state, None, NOW, "06010", "55"));
    let request = sent(client.bond_cancel_order(&mut state, signed(), NOW, "06010", "55"));
    check_signed_post(
        &request,
        &format!("{}/uapi/domestic-bond/v1/trading/order-rvsecncl", PAPER),
        "VTCB1301U",
        "{\"CANO\":\"12345678\",\"ACNT_PRDT_CD\":\"90\",\"KRX_FWDG_ORD_ORGNO\":\"06010\",\"ORGN_ODNO\":\"55\",\"ORD_DVSN\":\"02\",\"RVSE_QTY\":\"0\",\"RVSE_PRIC\":null}",
    );

    let mut live = session(false);
    let mut state = CallState::new();
    sent(live.bond_buy(&mut state, None, NOW, "B", 1, "1"));
    assert_eq!(sent(live.bond_buy(&mut state, signed(), NOW, "B", 1, "1")).headers.get("tr_id"), Some("TTCB1101U"));
    let mut state = CallState::new();
    sent(live.bond_sell(&mut state, None, NOW, "B", 1, "1"));
    assert_eq!(sent(live.bond_sell(&mut state, signed(), NOW, "B", 1, "1")).headers.get("tr_id"), Some("TTCB1201U"));
    let mut state = CallState::new();
    sent(live.bond_cancel_order(&mut state, None, NOW, "a", "b"));
    assert_eq!(sent(live.bond_cancel_order(&mut state, signed(), NOW, "a", "b")).headers.get("tr_id"), Some("TTCB1301U"));

    let revise = BondOrderReviseRequest {
        cano: "1".into(),
        acnt_prdt_cd: "2".into(),
        krx_fwdg_ord_orgno: "3".into(),
        orgn_odno: "4".into(),
        ord_dvsn: "5".into(),
        rvse_qty: None,
        rvse_pric: Some("6".into()),
    };
    assert_eq!(
        revise.to_json(),
        "{\"CANO\":\"1\",\"ACNT_PRDT_CD\":\"2\",\"KRX_FWDG_ORD_ORGNO\":\"3\",\"ORGN_ODNO\":\"4\",\"ORD_DVSN\":\"5\",\"RVSE_QTY\":null,\"RVSE_PRIC\":\"6\"}"
    );
}

#[test]
fn bond_inquiries() {
    let mut client = session(true);
    let mut state = CallState::new();
    let request = sent(client.bond_get_balance(&mut state, None, NOW));
    check_get(
        &request,
        &format!("{}/uapi/domestic-bond/v1/trading/inquire-balance?CANO=12345678&ACNT_PRDT_CD=90&AFHR_FLPR_YN=N&OFL_YN=N&INQR_DVSN=01&UNPR_DVSN=01&FUND_STTL_ICLD_YN=N&FNCG_AMT_AUTO_RDPT_YN=N&PRCS_DVSN=00&CTX_AREA_FK100=&CTX_AREA_NK100=", PAPER),
        "VTCB8001R",
    );
    let reply = ok("{\"rt_cd\":\"0\",\"msg_cd\":\"OK\",\"msg1\":\"ok\",\"output1\":[{\"PDNO\":\"KR1\",\"HLDG_QTY\":\"4\",\"EXPR_DT\":\"20300101\"}]}");
    let rows = done(client.bond_get_balance(&mut state, Some(reply), NOW)).unwrap();
    assert_eq!(rows.len(), 1);
    assert_eq!(rows[0].pdno.as_deref(), Some("KR1"));
    assert_eq!(rows[0].hldg_qty.as_deref(), Some("4"));
    assert_eq!(rows[0].expr_dt.as_deref(), Some("20300101"));
    assert_eq!(rows[0].prpr, None);

    let request = sent(client.bond_get_quote(&mut state, None, NOW, "KR1"));
    check_get(&request, &format!("{}/uapi/domestic-bond/v1/quotations/inquire-asking-price?BOND_SRNO=KR1", PAPER), "VTCB3001R");
    let reply = ok("{\"rt_cd\":\"0\",\"msg_cd\":\"OK\",\"msg1\":\"ok\",\"output\":{\"BOND_SRNO\":\"KR1\",\"ASKP1\":\"10010\",\"BIDP1\":\"10000\",\"ASKP_RSQN5\":\"7\",\"BIDP_RSQN5\":\"8\"}}");
    let quote = done(client.bond_get_quote(&mut state, Some(reply), NOW, "KR1")).unwrap();
    assert_eq!(quote.bond_srno.as_deref(), Some("KR1"));
    assert_eq!(quote.askp1.as_deref(), Some("10010"));
    assert_eq!(quote.bidp1.as_deref(), Some("10000"));
    assert_eq!(quote.askp_rsqn5.as_deref(), Some("7"));
    assert_eq!(quote.bidp_rsqn5.as_deref(), Some("8"));
    assert_eq!(quote.askp2, None);

    let request = sent(client.bond_get_price(&mut state, None, NOW, "KR1"));
    check_get(&request, &format!("{}/uapi/domestic-bond/v1/quotations/inquire-price?BOND_SRNO=KR1", PAPER), "VTCB3002R");
    let reply = ok("{\"rt_cd\":\"0\",\"msg_cd\":\"OK\",\"msg1\":\"ok\",\"output\":{\"STCK_PRPR\":\"10005\",\"SRFC_INRT\":\"3.5\"}}");
    let price = done(client.bond_get_price(&mut state, Some(reply), NOW, "KR1")).unwrap();
    assert_eq!(price.stck_prpr.as_deref(), Some("10005"));
    assert_eq!(price.srfc_inrt.as_deref(), Some("3.5"));

    let mut live = session(false);
    assert_eq!(sent(live.bond_get_balance(&mut CallState::new(), None, NOW)).headers.get("tr_id"), Some("CTCB8001R"));
    assert_eq!(sent(live.bond_get_quote(&mut CallState::new(), None, NOW, "x")).headers.get("tr_id"), Some("CTCB3001R"));
    assert_eq!(sent(live.bond_get_price(&mut CallState::new(), None, NOW, "x")).headers.get("tr_id"), Some("CTCB3002R"));
}

#[test]
fn domestic_future_orders() {
    let mut client = session(true);
    let url = format!("{}/uapi/domestic-futureoption/v1/trading/order", PAPER);
    let mut state = CallState::new();
    sent(client.future_order(&mut state, None, NOW, FutureOrderAction::NewSell, "101S3000", 2, "350.5", FuturePriceType::Limit));
    let request = sent(client.future_order(&mut state, signed(), NOW, FutureOrderAction::NewSell, "101S3000", 2, "350.5", FuturePriceType::Limit));
    check_signed_post(
        &request,
        &url,
        "VTTO0102U",
        "{\"CANO\":\"12345678\",\"ACNT_PRDT_CD\":\"90\",\"PDNO\":\"101S3000\",\"SLL_BUY_DVSN_CD\":\"01\",\"ORD_QTY\":\"2\",\"UNIT_PRICE\":\"350.5\",\"NMPR_TYPE_CD\":\"1\"}",
    );
    let reply = ok("{\"rt_cd\":\"0\",\"msg_cd\":\"OK\",\"msg1\":\"ok\",\"output\":{\"ORD_NO\":\"88\",\"ORD_TMD\":\"100000\"}}");
    let result = done(client.future_order(&mut state, Some(reply), NOW, FutureOrderAction::NewSell, "101S3000", 2, "350.5", FuturePriceType::Limit)).unwrap();
    assert_eq!(result.ord_no.as_deref(), Some("88"));
    assert_eq!(result.ord_tmd.as_deref(), Some("100000"));

    let buy_body = "{\"CANO\":\"12345678\",\"ACNT_PRDT_CD\":\"90\",\"PDNO\":\"101S3000\",\"SLL_BUY_DVSN_CD\":\"02\",\"ORD_QTY\":\"1\",\"UNIT_PRICE\":\"0\",\"NMPR_TYPE_CD\":\"2\"}";
    let sell_body = "{\"CANO\":\"12345678\",\"ACNT_PRDT_CD\":\"90\",\"PDNO\":\"101S3000\",\"SLL_BUY_DVSN_CD\":\"01\",\"ORD_QTY\":\"1\",\"UNIT_PRICE\":\"0\",\"NMPR_TYPE_CD\":\"2\"}";
    let mut state = CallState::new();
    sent(client.future_new_buy(&mut state, None, NOW, "101S3000", 1, "0", FuturePriceType::Market));
    let request = sent(client.future_new_buy(&mut state, signed(), NOW, "101S3000", 1, "0", FuturePriceType::Market));
    check_signed_post(&request, &url, "VTTO0101U", buy_body);
    let mut state = CallState::new();
    sent(client.future_new_sell(&mut state, None, NOW, "101S3000", 1, "0", FuturePriceType::Market));
    let request = sent(client.future_new_sell(&mut state, signed(), NOW, "101S3000", 1, "0", FuturePriceType::Market));
    check_signed_post(&request, &url, "VTTO0102U", sell_body);
    let mut state = CallState::new();
    sent(client.future_liquidate_buy(&mut state, None, NOW, "101S3000", 1, "0", FuturePriceType::Market));
    let request = sent(client.future_liquidate_buy(&mut state, signed(), NOW, "101S3000", 1, "0", FuturePriceType::Market));
    check_signed_post(&request, &url, "VTTO0103U", buy_body);
    let mut state = CallState::new();
    sent(client.future_liquidate_sell(&mut state, None, NOW, "101S3000", 1, "0", FuturePriceType::Market));
    let request = sent(client.future_liquidate_sell(&mut state, signed(), NOW, "101S3000", 1, "0", FuturePriceType::Market));
    check_signed_post(&request, &url, "VTTO0104U", sell_body);

    let mut live = session(false);
    let mut state = CallState::new();
    sent(live.future_liquidate_buy(&mut state, None, NOW, "101S3000", 1, "0", FuturePriceType::Market));
    let request = sent(live.future_liquidate_buy(&mut state, signed(), NOW, "101S3000", 1, "0", FuturePriceType::Market));
    assert_eq!(request.headers.get("tr_id"), Some("TTTO0103U"));
}

#[test]
fn domestic_future_changes() {
    let mut client = session(true);
    let url = format!("{}/uapi/domestic-futureoption/v1/trading/order-rvsecncl", PAPER);
    let mut state = CallState::new();
    sent(client.future_modify_order(&mut state, None, NOW, "88", 3, "351"));
    let request = sent(client.future_modify_order(&mut state, signed(), NOW, "88", 3, "351"));
    check_signed_post(
        &request,
        &url,
        "VTTO0105U",
        "{\"CANO\":\"12345678\",\"ACNT_PRDT_CD\":\"90\",\"ORGN_ORD_NO\":\"88\",\"RVSE_CNCL_DVSN_CD\":\"01\",\"ORD_QTY\":\"3\",\"UNIT_PRICE\":\"351\"}",
    );
    let reply = ok("{\"rt_cd\":\"0\",\"msg_cd\":\"OK\",\"msg1\":\"ok\",\"output\":{\"anything\":[1,2]}}");
    assert_eq!(done(client.future_modify_order(&mut state, Some(reply), NOW, "88", 3, "351")).unwrap(), true);

    sent(client.future_cancel_order(&mut state, None, NOW, "88"));
    let request = sent(client.future_cancel_order(&mut state, signed(), NOW, "88"));
    check_signed_post(
        &request,
        &url,
        "VTTO0106U",
        "{\"CANO\":\"12345678\",\"ACNT_PRDT_CD\":\"90\",\"ORGN_ORD_NO\":\"88\",\"RVSE_CNCL_DVSN_CD\":\"02\",\"ORD_QTY\":null,\"UNIT_PRICE\":null}",
    );
    let reply = ok("{\"rt_cd\":\"1\",\"msg_cd\":\"E1\",\"msg1\":\"too late\"}");
    match done(client.future_cancel_order(&mut state, Some(reply), NOW, "88")) {
        Err(KisError::Remote { code, message }) => {
            assert_eq!(code, "E1");
            assert_eq!(message, "too late");
        }
        _ => panic!("the remote failure was expected"),
    }
    let request = FutureModifyCancelRequest {
        cano: "1".into(),
        acnt_prdt_cd: "2".into(),
        orgn_ord_no: "3".into(),
        rvse_cncl_dvsn_cd: "4".into(),
        ord_qty: Some("5".into()),
        unit_price: None,
    };
    assert_eq!(
        request.to_json(),
        "{\"CANO\":\"1\",\"ACNT_PRDT_CD\":\"2\",\"ORGN_ORD_NO\":\"3\",\"RVSE_CNCL_DVSN_CD\":\"4\",\"ORD_QTY\":\"5\",\"UNIT_PRICE\":null}"
    );
}

#[test]
fn domestic_future_inquiries() {
    let mut client = session(true);
    let mut state = CallState::new();
    let request = sent(client.future_get_balance(&mut state, None, NOW));
    check_get(
        &request,
        &format!("{}/uapi/domestic-futureoption/v1/trading/inquire-balance?CANO=12345678&ACNT_PRDT_CD=90&AFHR_FLPR_YN=N&INQR_DVSN=00&UNPR_DVSN=01&FUND_STTL_ICLD_YN=N&FNCG_AMT_AUTO_RDPT_YN=N&OFL_YN=N&CTX_AREA_FK100=&CTX_AREA_NK100=", PAPER),
        "VTTO5201R",
    );
    let reply = ok("{\"rt_cd\":\"0\",\"msg_cd\":\"OK\",\"msg1\":\"ok\",\"output1\":[{\"PDNO\":\"101S3000\",\"CBLC_QTY\":\"2\"},{\"PDNO\":\"201S3000\"}]}");
    let rows = done(client.future_get_balance(&mut state, Some(reply), NOW)).unwrap();
    assert_eq!(rows.len(), 2);
    assert_eq!(rows[0].cblc_qty.as_deref(), Some("2"));
    assert_eq!(rows[1].pdno.as_deref(), Some("201S3000"));

    let request = sent(client.future_get_deposit(&mut state, None, NOW));
    check_get(
        &request,
        &format!("{}/uapi/domestic-futureoption/v1/trading/inquire-deposit?CANO=12345678&ACNT_PRDT_CD=90&INQR_DVSN_1=00&INQR_DVSN_2=00", PAPER),
        "VTTO5300R",
    );
    let reply = ok("{\"rt_cd\":\"0\",\"msg_cd\":\"OK\",\"msg1\":\"ok\",\"output\":{\"DNCA_TOT_AMT\":\"900\",\"WDRW_PSBL_AMT\":\"100\"}}");
    let deposit = done(client.future_get_deposit(&mut state, Some(reply), NOW)).unwrap();
    assert_eq!(deposit.dnca_tot_amt.as_deref(), Some("900"));
    assert_eq!(deposit.wdrw_psbl_amt.as_deref(), Some("100"));
    assert_eq!(deposit.mgna_amt, None);

    let request = sent(client.future_get_executions(&mut state, None, NOW, Some("20240102")));
    check_get(
        &request,
        &format!("{}/uapi/domestic-futureoption/v1/trading/inquire-ccnl?CANO=12345678&ACNT_PRDT_CD=90&INQR_STRT_DT=20240102&INQR_END_DT=20240102&SLL_BUY_DVSN_CD=00&INQR_DVSN=00&PDNO=&CCLD_DVSN=00&ORD_GNO_BRNO=&ODNO=&INQR_DVSN_3=00&INQR_DVSN_1=&CTX_AREA_FK100=&CTX_AREA_NK100=", PAPER),
        "VTTO5107R",
    );
    let reply = ok("{\"rt_cd\":\"0\",\"msg_cd\":\"OK\",\"msg1\":\"ok\",\"output1\":[{\"ORD_NO\":\"88\",\"CCLD_QTY\":\"2\",\"CCLD_AMT\":\"701\"}]}");
    let rows = done(client.future_get_executions(&mut state, Some(reply), NOW, Some("20240102"))).unwrap();
    assert_eq!(rows.len(), 1);
    assert_eq!(rows[0].ord_no.as_deref(), Some("88"));
    assert_eq!(rows[0].ccld_amt.as_deref(), Some("701"));
    let request = sent(client.future_get_executions(&mut state, None, NOW, None));
    assert_eq!(
        request.url,
        format!("{}/uapi/domestic-futureoption/v1/trading/inquire-ccnl?CANO=12345678&ACNT_PRDT_CD=90&INQR_STRT_DT=&INQR_END_DT=&SLL_BUY_DVSN_CD=00&INQR_DVSN=00&PDNO=&CCLD_DVSN=00&ORD_GNO_BRNO=&ODNO=&INQR_DVSN_3=00&INQR_DVSN_1=&CTX_AREA_FK100=&CTX_AREA_NK100=", PAPER)
    );
    let mut live = session(false);
    assert_eq!(sent(live.future_get_balance(&mut CallState::new(), None, NOW)).headers.get("tr_id"), Some("TTTO5201R"));
    assert_eq!(sent(live.future_get_deposit(&mut CallState::new(), None, NOW)).headers.get("tr_id"), Some("TTTO5300R"));
    assert_eq!(sent(live.future_get_executions(&mut CallState::new(), None, NOW, None)).headers.get("tr_id"), Some("TTTO5107R"));
}

#[test]
fn overseas_stock_operations() {
    let mut client = session(true);
    let mut state = CallState::new();
    sent(client.overseas_order(&mut state, None, NOW, Exchange::NASDAQ, "AAPL", OrderSide::Buy, 5, "190.25", Some(UsOrderType::PreMarketLOO)));
    let request = sent(client.overseas_order(&mut state, signed(), NOW, Exchange::NASDAQ, "AAPL", OrderSide::Buy, 5, "190.25", Some(UsOrderType::PreMarketLOO)));
    check_signed_post(
        &request,
        &format!("{}/uapi/overseas-stock/v1/trading/order", PAPER),
        "VTTT1002U",
        "{\"CANO\":\"12345678\",\"ACNT_PRDT_CD\":\"90\",\"OVRS_EXCG_CD\":\"NASD\",\"PDNO\":\"AAPL\",\"ORD_QTY\":\"5\",\"OVRS_ORD_UNPR\":\"190.25\",\"ORD_SVR_DVSN_CD\":\"0\",\"ORD_DVSN\":\"32\"}",
    );
    let reply = ok("{\"rt_cd\":\"0\",\"msg_cd\":\"OK\",\"msg1\":\"ok\",\"output\":{\"ORD_NO\":\"31\",\"ODNO\":\"0031\",\"ORD_ABLEYN\":\"Y\"}}");
    let result = done(client.overseas_order(&mut state, Some(reply), NOW, Exchange::NASDAQ, "AAPL", OrderSide::Buy, 5, "190.25", Some(UsOrderType::PreMarketLOO))).unwrap();
    assert_eq!(result.ord_no.as_deref(), Some("31"));
    assert_eq!(result.odno.as_deref(), Some("0031"));
    assert_eq!(result.ord_ableyn.as_deref(), Some("Y"));
    assert_eq!(result.ord_tmd, None);

    let mut state = CallState::new();
    sent(client.overseas_order(&mut state, None, NOW, Exchange::NYSE, "IBM", OrderSide::Sell, 1, "0", None));
    let request = sent(client.overseas_order(&mut state, signed(), NOW, Exchange::NYSE, "IBM", OrderSide::Sell, 1, "0", None));
    check_signed_post(
        &request,
        &format!("{}/uapi/overseas-stock/v1/trading/order", PAPER),
        "VTTT1006U",
        "{\"CANO\":\"12345678\",\"ACNT_PRDT_CD\":\"90\",\"OVRS_EXCG_CD\":\"NYSE\",\"PDNO\":\"IBM\",\"ORD_QTY\":\"1\",\"OVRS_ORD_UNPR\":\"0\",\"ORD_SVR_DVSN_CD\":\"0\",\"ORD_DVSN\":\"00\"}",
    );
    let mut state = CallState::new();
    sent(client.overseas_order(&mut state, None, NOW, Exchange::TKSE, "7203", OrderSide::Buy, 100, "2500.00", Some(UsOrderType::AfterMarketMOC)));
    let request = sent(client.overseas_order(&mut state, signed(), NOW, Exchange::TKSE, "7203", OrderSide::Buy, 100, "2500.00", Some(UsOrderType::AfterMarketMOC)));
    check_signed_post(
        &request,
        &format!("{}/uapi/overseas-stock/v1/trading/order", PAPER),
        "VTTS0308U",
        "{\"CANO\":\"12345678\",\"ACNT_PRDT_CD\":\"90\",\"OVRS_EXCG_CD\":\"TKSE\",\"PDNO\":\"7203\",\"ORD_QTY\":\"100\",\"OVRS_ORD_UNPR\":\"2500.00\",\"ORD_SVR_DVSN_CD\":\"0\",\"ORD_DVSN\":\"00\"}",
    );

    let mut state = CallState::new();
    let request = sent(client.overseas_balance(&mut state, None, NOW));
    check_get(
        &request,
        &format!("{}/uapi/overseas-stock/v1/trading/inquire-balance?CANO=12345678&ACNT_PRDT_CD=90&OVRS_EXCG_CD=&TR_CRCY_CD=&CTX_AREA_FK200=&CTX_AREA_NK200=", PAPER),
        "VTTS3012R",
    );
    let reply = ok("{\"rt_cd\":\"0\",\"msg_cd\":\"OK\",\"msg1\":\"ok\",\"output1\":[{\"ovrs_pdno\":\"AAPL\",\"ovrs_cblc_qty\":\"5\",\"tr_crcy_cd\":\"USD\"}]}");
    let rows = done(client.overseas_balance(&mut state, Some(reply), NOW)).unwrap();
    assert_eq!(rows.len(), 1);
    assert_eq!(rows[0].ovrs_pdno.as_deref(), Some("AAPL"));
    assert_eq!(rows[0].tr_crcy_cd.as_deref(), Some("USD"));

    let request = sent(client.overseas_price(&mut state, None, NOW, Exchange::NASDAQ, "AAPL"));
    check_get(&request, &format!("{}/uapi/overseas-stock/v1/quotations/price?AUTH=&EXCD=NASD&SYMB=AAPL", PAPER), "HHDFS00000300");
    let reply = ok("{\"rt_cd\":\"0\",\"msg_cd\":\"OK\",\"msg1\":\"ok\",\"output\":{\"rsym\":\"DNASAAPL\",\"last\":\"190.30\",\"tvol\":\"100\"}}");
    let price = done(client.overseas_price(&mut state, Some(reply), NOW, Exchange::NASDAQ, "AAPL")).unwrap();
    assert_eq!(price.rsym.as_deref(), Some("DNASAAPL"));
    assert_eq!(price.last.as_deref(), Some("190.30"));
    assert_eq!(price.tvol.as_deref(), Some("100"));
    assert_eq!(price.open, None);

    let mut live = session(false);
    assert_eq!(sent(live.overseas_balance(&mut CallState::new(), None, NOW)).headers.get("tr_id"), Some("TTTS3012R"));
}

#[test]
fn overseas_future_operations() {
    assert_eq!(NEW_BUY, "OTFM3001U");
    assert_eq!(NEW_SELL, "OTFM3002U");
    assert_eq!(CLOSE_BUY, "OTFM3003U");
    assert_eq!(CLOSE_SELL, "OTFM3004U");
    assert_eq!(MODIFY_CANCEL, "OTFM3005U");
    assert_eq!(INQUIRE_UNSETTLED, "OTFM3304R");
    assert_eq!(INQUIRE_DEPOSIT, "OTFM3306R");
    assert_eq!(INQUIRE_EXECUTION, "OTFM3307R");

    let mut client = session(true);
    let mut state = CallState::new();
    sent(client.overseas_future_order(&mut state, None, NOW, "6EU24", FutureSide::Sell, PositionType::Close, PriceType::Limit, 2, "1.0850"));
    let request = sent(client.overseas_future_order(&mut state, signed(), NOW, "6EU24", FutureSide::Sell, PositionType::Close, PriceType::Limit, 2, "1.0850"));
    check_signed_post(
        &request,
        &format!("{}/uapi/overseas-futureoption/v1/trading/order", PAPER),
        "OTFM3004U",
        "{\"CANO\":\"12345678\",\"ACNT_PRDT_CD\":\"90\",\"OVRS_FUTR_FX_PDNO\":\"6EU24\",\"SLL_BUY_DVSN_CD\":\"01\",\"PRIC_DVSN_CD\":\"1\",\"ORD_QTY\":\"2\",\"FUOP_LIMT_PRIC\":\"1.0850\"}",
    );
    let reply = ok("{\"rt_cd\":\"0\",\"msg_cd\":\"OK\",\"msg1\":\"taken\",\"output\":{\"ODNO\":\"77\",\"ORD_TMD\":\"093000\"}}");
    let result = done(client.overseas_future_order(&mut state, Some(reply), NOW, "6EU24", FutureSide::Sell, PositionType::Close, PriceType::Limit, 2, "1.0850")).unwrap();
    assert_eq!(result.order_no, "77");
    assert_eq!(result.order_date, "093000");
    assert!(result.success);
    assert_eq!(result.message, "taken");

    for (side, position, tr_id) in [
        (FutureSide::Buy, PositionType::New, "OTFM3001U"),
        (FutureSide::Sell, PositionType::New, "OTFM3002U"),
        (FutureSide::Buy, PositionType::Close, "OTFM3003U"),
        (FutureSide::Sell, PositionType::Close, "OTFM3004U"),
    ] {
        let mut state = CallState::new();
        sent(client.overseas_future_order(&mut state, None, NOW, "X", side, position, PriceType::Market, 1, "0"));
        let request = sent(client.overseas_future_order(&mut state, signed(), NOW, "X", side, position, PriceType::Market, 1, "0"));
        assert_eq!(request.headers.get("tr_id"), Some(tr_id));
    }

    let url = format!("{}/uapi/overseas-futureoption/v1/trading/order-rvsecncl", PAPER);
    let mut state = CallState::new();
    sent(client.overseas_future_cancel(&mut state, None, NOW, "77"));
    let request = sent(client.overseas_future_cancel(&mut state, signed(), NOW, "77"));
    check_signed_post(
        &request,
        &url,
        "OTFM3005U",
        "{\"CANO\":\"12345678\",\"ACNT_PRDT_CD\":\"90\",\"ORGN_ODNO\":\"77\",\"RVSE_CNCL_DVSN_CD\":\"02\"}",
    );
    let mut state = CallState::new();
    sent(client.overseas_future_modify(&mut state, None, NOW, "77", Some(3), Some("1.09".to_string())));
    let request = sent(client.overseas_future_modify(&mut state, signed(), NOW, "77", Some(3), Some("1.09".to_string())));
    check_signed_post(
        &request,
        &url,
        "OTFM3005U",
        "{\"CANO\":\"12345678\",\"ACNT_PRDT_CD\":\"90\",\"ORGN_ODNO\":\"77\",\"RVSE_CNCL_DVSN_CD\":\"01\",\"ORD_QTY\":\"3\",\"FUOP_LIMT_PRIC\":\"1.09\"}",
    );
    let mut state = CallState::new();
    sent(client.overseas_future_modify(&mut state, None, NOW, "77", None, Some("1.09".to_string())));
    let request = sent(client.overseas_future_modify(&mut state, signed(), NOW, "77", None, Some("1.09".to_string())));
    assert_eq!(
        request.body.as_deref(),
        Some("{\"CANO\":\"12345678\",\"ACNT_PRDT_CD\":\"90\",\"ORGN_ODNO\":\"77\",\"RVSE_CNCL_DVSN_CD\":\"01\",\"FUOP_LIMT_PRIC\":\"1.09\"}")
    );
    let reply = ok("{\"rt_cd\":\"0\",\"msg_cd\":\"OK\",\"msg1\":\"changed\",\"output\":{\"ODNO\":\"78\",\"ORD_TMD\":\"093100\"}}");
    let result = done(client.overseas_future_modify(&mut state, Some(reply), NOW, "77", None, Some("1.09".to_string()))).unwrap();
    assert_eq!(result.order_no, "78");
    assert_eq!(result.message, "changed");

    let request = OverseasFutureModifyCancelRequest::modify("1".into(), "2".into(), "3".into(), Some(4), None);
    assert_eq!(request.modify_cancel_type, "01");
    assert_eq!(request.quantity.as_deref(), Some("4"));
    assert_eq!(request.limit_price, None);
    assert_eq!(
        request.to_json(),
        "{\"CANO\":\"1\",\"ACNT_PRDT_CD\":\"2\",\"ORGN_ODNO\":\"3\",\"RVSE_CNCL_DVSN_CD\":\"01\",\"ORD_QTY\":\"4\"}"
    );
    let mut state = CallState::new();
    sent(client.overseas_future_modify_cancel_internal(&mut state, None, NOW, request));
    let request = OverseasFutureModifyCancelRequest::cancel("1".into(), "2".into(), "3".into());
    assert_eq!(request.modify_cancel_type, "02");
    assert_eq!(request.quantity, None);
    let request = OverseasFutureOrderRequest::new("1".into(), "2".into(), "S".into(), FutureSide::Buy, PriceType::Market, 9, "0".into());
    assert_eq!(request.side, "02");
    assert_eq!(request.price_type, "2");
    assert_eq!(request.quantity, "9");
    assert_eq!(
        request.to_json(),
        "{\"CANO\":\"1\",\"ACNT_PRDT_CD\":\"2\",\"OVRS_FUTR_FX_PDNO\":\"S\",\"SLL_BUY_DVSN_CD\":\"02\",\"PRIC_DVSN_CD\":\"2\",\"ORD_QTY\":\"9\",\"FUOP_LIMT_PRIC\":\"0\"}"
    );
}

#[test]
fn overseas_future_inquiries() {
    let mut client = session(false);
    let mut state = CallState::new();
    let request = sent(client.overseas_future_inquire_unsettled(&mut state, None, NOW));
    check_get(
        &request,
        &format!("{}/uapi/overseas-futureoption/v1/trading/inquire-unpd?CANO=12345678&ACNT_PRDT_CD=90&OVRS_FUTR_FX_PDNO=&CTX_AREA_FK200=&CTX_AREA_NK200=", LIVE),
        "OTFM3304R",
    );
    let reply = ok("{\"rt_cd\":\"0\",\"msg_cd\":\"OK\",\"msg1\":\"ok\"}");
    assert_eq!(done(client.overseas_future_inquire_unsettled(&mut state, Some(reply), NOW)).unwrap().len(), 0);

    let request = sent(client.overseas_future_inquire_deposit(&mut state, None, NOW));
    check_get(
        &request,
        &format!("{}/uapi/overseas-futureoption/v1/trading/inquire-deposit?CANO=12345678&ACNT_PRDT_CD=90&OVRS_FUTR_FX_PDNO=&WCRC_FRCR_DVSN_CD=01&NATN_CD=", LIVE),
        "OTFM3306R",
    );
    let reply = ok("{\"rt_cd\":\"0\",\"msg_cd\":\"OK\",\"msg1\":\"ok\",\"output\":{\"TOT_DPSIT_AMT\":\"1\",\"ORD_PSBL_AMT\":\"2\",\"MGNA_AMT\":\"3\",\"EVLU_PFLS_AMT\":\"4\",\"CRCY_CD\":\"USD\",\"FRCR_DPSIT_TOT_AMT\":\"6\"}}");
    let deposit = done(client.overseas_future_inquire_deposit(&mut state, Some(reply), NOW)).unwrap();
    assert_eq!(deposit.total_deposit, "1");
    assert_eq!(deposit.available_amount, "2");
    assert_eq!(deposit.margin_amount, "3");
    assert_eq!(deposit.profit_loss, "4");
    assert_eq!(deposit.currency, "USD");
    assert_eq!(deposit.foreign_deposit_total, "6");

    let request = sent(client.overseas_future_inquire_execution(&mut state, None, NOW, "20240101", "20240131"));
    check_get(
        &request,
        &format!("{}/uapi/overseas-futureoption/v1/trading/inquire-ccld?CANO=12345678&ACNT_PRDT_CD=90&OVRS_FUTR_FX_PDNO=&STRT_DT=20240101&END_DT=20240131&SLL_BUY_DVSN_CD=&CCLD_NCCS_DVSN_CD=&SORT_SQN=DS&CTX_AREA_FK200=&CTX_AREA_NK200=", LIVE),
        "OTFM3307R",
    );
    let reply = ok("{\"rt_cd\":\"0\",\"msg_cd\":\"OK\",\"msg1\":\"ok\",\"output1\":[{\"ODNO\":\"1\",\"OVRS_FUTR_FX_PDNO\":\"2\",\"OVRS_FUTR_FX_ITEM_NM\":\"3\",\"CCLD_QTY\":\"4\",\"CCLD_UNPR\":\"5\",\"CCLD_AMT\":\"6\",\"CCLD_TMD\":\"7\",\"SLL_BUY_DVSN_CD\":\"8\",\"ORD_DVSN\":\"9\"}]}");
    let rows = done(client.overseas_future_inquire_execution(&mut state, Some(reply), NOW, "20240101", "20240131")).unwrap();
    assert_eq!(rows.len(), 1);
    assert_eq!(rows[0].order_no, "1");
    assert_eq!(rows[0].symbol, "2");
    assert_eq!(rows[0].symbol_name, "3");
    assert_eq!(rows[0].executed_quantity, "4");
    assert_eq!(rows[0].executed_price, "5");
    assert_eq!(rows[0].executed_amount, "6");
    assert_eq!(rows[0].executed_time, "7");
    assert_eq!(rows[0].side, "8");
    assert_eq!(rows[0].order_type, "9");
}
