//! The state behind the entry points that the host calls, and what those
//! entry points decide.
//!
//! The entry points themselves read the host's memory and write into it; they
//! hand what they read to the functions here and pass on what comes back.

use vstd::prelude::*;
use crate::http::HttpResponse;
use crate::json::{flag, json_document, json_flag, json_member, json_text, member, text};
use crate::kis::domestic_stock::{
    balance_outcome, domestic_balance_call, domestic_buy_call, domestic_sell_call, BalanceItem,
    BalanceSummary, CashOrderResponse,
};
use crate::kis::types::{
    byte_len, single_outcome, KisConfig, KisConfigView, KisError, OrderSide, OrderType, Outcome,
};
use crate::kis::{
    lemma_call_keeps_config, new_client, opt_response, CallState, ClientView, KisClient,
};
use crate::text::{can_cut, decimal, decimal_text, joined, opt_view, same_text};

verus! {

/// The kind of an order as the host names it.
#[derive(Debug, Clone, Copy, PartialEq, Eq, Structural)]
pub enum HostOrderType {
    /// A market order.
    Market,
    /// A limit order.
    Limit,
    /// Any kind that the broker does not offer.
    Other,
}

impl HostOrderType {
    /// The kind of order that is sent for it: a market order for a market
    /// order, a limit order for everything else.
    pub open spec fn kis_type_spec(self) -> OrderType {
        match self {
            HostOrderType::Market => OrderType::Market,
            _ => OrderType::Limit,
        }
    }

    /// The kind of order that is sent for it.
    pub fn kis_type(&self) -> (r: OrderType)
        ensures
            r == self.kis_type_spec(),
    {
        match self {
            HostOrderType::Market => OrderType::Market,
            HostOrderType::Limit => OrderType::Limit,
            HostOrderType::Other => OrderType::Limit,
        }
    }
}

/// What the host is told after it has configured the plugin.
#[derive(Debug, Clone)]
pub struct InitReply {
    /// Whether the plugin is ready.
    pub success: bool,
    /// The message where it is, the error where it is not.
    pub text: String,
}

/// The text under `key` in the settings; the empty text where the key is
/// missing or holds no string.
pub open spec fn setting_text(doc: serde_json::Value, key: Seq<char>) -> Seq<char> {
    match json_member(doc, key) {
        Some(found) => match json_text(found) {
            Some(t) => t,
            None => Seq::empty(),
        },
        None => Seq::empty(),
    }
}

/// The truth value under `key` in the settings; `true` where the key is
/// missing or holds no truth value.
pub open spec fn setting_flag(doc: serde_json::Value, key: Seq<char>) -> bool {
    match json_member(doc, key) {
        Some(found) => match json_flag(found) {
            Some(b) => b,
            None => true,
        },
        None => true,
    }
}

/// The configuration that the settings ask for.
pub open spec fn settings_of(doc: serde_json::Value) -> KisConfigView {
    KisConfigView {
        app_key: setting_text(doc, "app_key"@),
        app_secret: setting_text(doc, "app_secret"@),
        account_no: setting_text(doc, "account_no"@),
        is_paper: setting_flag(doc, "is_paper"@),
    }
}

/// Why a configuration is refused, if it is: the three texts must be there,
/// and the account number must take ten bytes, of which the first eight can
/// be cut off.
pub open spec fn settings_fault(config: KisConfigView) -> Option<Seq<char>> {
    if config.app_key.len() == 0 || config.app_secret.len() == 0 || config.account_no.len() == 0 {
        Some("Missing required configuration: app_key, app_secret, or account_no"@)
    } else if byte_len(config.account_no) != 10 || !can_cut(config.account_no, 8) {
        Some("account_no must be 10 digits (CANO 8 + ACNT_PRDT_CD 2)"@)
    } else {
        None
    }
}

/// What the host is told of a plugin that is ready.
pub open spec fn ready_message(is_paper: bool) -> Seq<char> {
    "Initialized KIS broker ("@ + (if is_paper {
        "paper"@
    } else {
        "production"@
    }) + ")"@
}

/// The name under which the account is shown.
pub open spec fn account_label(is_paper: bool) -> Seq<char> {
    "KIS "@ + (if is_paper {
        "Paper"@
    } else {
        "Live"@
    }) + " Account"@
}

/// The number under which an order is kept: the broker's number where it gave
/// one, else `kr_` and the count of orders so far.
pub open spec fn order_id_for(odno: Option<Seq<char>>, count: u64) -> Seq<char> {
    match odno {
        Some(number) => number,
        None => "kr_"@ + decimal(count as nat),
    }
}

/// Whether `after` and `reply` are what configuring `before` with `settings`
/// comes to.  Settings that are refused leave the state as it was, and the
/// reply carries the reason.  Others give the state a new client without a
/// token, for the account and the environment that they name, and leave the
/// count as it was.
pub open spec fn configured(
    before: BrokerView,
    settings: serde_json::Value,
    after: BrokerView,
    reply: InitReply,
) -> bool {
    match settings_fault(settings_of(settings)) {
        Some(error) => after == before && !reply.success && reply.text@ == error,
        None => {
            &&& after == (BrokerView {
                client: Some(new_client(settings_of(settings))),
                account_no: settings_of(settings).account_no,
                is_paper: settings_of(settings).is_paper,
                next_order_id: before.next_order_id,
            })
            &&& reply.success
            &&& reply.text@ == ready_message(settings_of(settings).is_paper)
        },
    }
}

/// The state of the plugin: the client once it is configured, the account it
/// acts for, and the count from which orders without a number are named.
pub struct BrokerState {
    client: Option<KisClient>,
    account_no: String,
    is_paper: bool,
    next_order_id: u64,
}

/// What a [`BrokerState`] holds.
pub ghost struct BrokerView {
    pub client: Option<ClientView>,
    pub account_no: Seq<char>,
    pub is_paper: bool,
    pub next_order_id: u64,
}

/// The view of an optional client.
pub open spec fn opt_client(client: Option<KisClient>) -> Option<ClientView> {
    match client {
        Some(c) => Some(c@),
        None => None,
    }
}

impl View for BrokerState {
    type V = BrokerView;

    closed spec fn view(&self) -> BrokerView {
        BrokerView {
            client: opt_client(self.client),
            account_no: self.account_no@,
            is_paper: self.is_paper,
            next_order_id: self.next_order_id,
        }
    }
}

fn refusal(error: &str) -> (r: InitReply)
    ensures
        !r.success,
        r.text@ == error@,
{
    InitReply { success: false, text: error.to_owned() }
}

fn text_setting(doc: &serde_json::Value, key: &str) -> (r: String)
    ensures
        r@ == setting_text(*doc, key@),
{
    match member(doc, key) {
        Some(found) => match text(found) {
            Some(t) => t.to_owned(),
            None => String::new(),
        },
        None => String::new(),
    }
}

fn flag_setting(doc: &serde_json::Value, key: &str) -> (r: bool)
    ensures
        r == setting_flag(*doc, key@),
{
    match member(doc, key) {
        Some(found) => match flag(found) {
            Some(b) => b,
            None => true,
        },
        None => true,
    }
}

impl BrokerState {
    #[verifier::type_invariant]
    spec fn client_can_act(self) -> bool {
        self.client matches Some(c) ==> c@.config.account_ready()
    }

    /// The state of a plugin that is not configured: no client, no account,
    /// paper trading, and the count at one.
    pub fn new() -> (r: BrokerState)
        ensures
            r@ == (BrokerView {
                client: None,
                account_no: Seq::empty(),
                is_paper: true,
                next_order_id: 1,
            }),
    {
        BrokerState { client: None, account_no: String::new(), is_paper: true, next_order_id: 1 }
    }

    /// Whether the plugin is configured.
    pub fn is_initialized(&self) -> (r: bool)
        ensures
            r == (self@.client is Some),
    {
        self.client.is_some()
    }

    /// The account number.
    pub fn account_no(&self) -> (r: &str)
        ensures
            r@ == self@.account_no,
    {
        self.account_no.as_str()
    }

    /// Whether the account is one of paper trading.
    pub fn is_paper(&self) -> (r: bool)
        ensures
            r == self@.is_paper,
    {
        self.is_paper
    }

    /// The count from which the next order without a number is named.
    pub fn next_order_id(&self) -> (r: u64)
        ensures
            r == self@.next_order_id,
    {
        self.next_order_id
    }

    /// Whether `account_id` is the account that the plugin acts for.
    pub fn owns(&self, account_id: &str) -> (r: bool)
        ensures
            r == (account_id@ == self@.account_no),
    {
        same_text(account_id, self.account_no.as_str())
    }

    /// The name under which the account is shown.
    pub fn account_name(&self) -> (r: String)
        ensures
            r@ == account_label(self@.is_paper),
    {
        let mut r = String::from_str("KIS ");
        r.append(if self.is_paper {
            "Paper"
        } else {
            "Live"
        });
        r.append(" Account");
        r
    }

    /// Configures the plugin from the settings that the host sent.
    ///
    /// Settings that lack a key or a secret, or whose account number does not
    /// take ten bytes that can be cut after the eighth, are refused and leave
    /// the state as it was.
    /// Others give the plugin a new client, without a token.
    pub fn configure(&mut self, settings: &serde_json::Value) -> (r: InitReply)
        ensures
            configured(old(self)@, *settings, final(self)@, r),
    {
        let app_key = text_setting(settings, "app_key");
        let app_secret = text_setting(settings, "app_secret");
        let account_no = text_setting(settings, "account_no");
        let is_paper = flag_setting(settings, "is_paper");
        if app_key.as_str().is_empty() || app_secret.as_str().is_empty()
            || account_no.as_str().is_empty() {
            return refusal("Missing required configuration: app_key, app_secret, or account_no");
        }
        if account_no.as_str().as_bytes().len() != 10 || !account_no.as_str().is_char_boundary(8) {
            return refusal("account_no must be 10 digits (CANO 8 + ACNT_PRDT_CD 2)");
        }
        proof {
            vstd::utf8::encode_utf8_valid_utf8(account_no@);
            vstd::utf8::is_char_boundary_start_end_of_seq(vstd::utf8::encode_utf8(account_no@));
        }
        let config = KisConfig::new(app_key, app_secret, account_no.clone(), is_paper);
        let client = KisClient::new(config);
        self.client = Some(client);
        self.account_no = account_no;
        self.is_paper = is_paper;
        let mut message = String::from_str("Initialized KIS broker (");
        message.append(if is_paper {
            "paper"
        } else {
            "production"
        });
        message.append(")");
        InitReply { success: true, text: message }
    }

    /// Configures the plugin from the JSON text of the settings.  There is
    /// no reply to a text that is no JSON document, and the state stays as it
    /// was.
    pub fn initialize(&mut self, request: &str) -> (r: Option<InitReply>)
        ensures
            match json_document(request@) {
                Err(_) => r is None && final(self)@ == old(self)@,
                Ok(settings) => r matches Some(reply) && configured(
                    old(self)@,
                    settings,
                    final(self)@,
                    reply,
                ),
            },
    {
        match crate::json::parse(request) {
            Err(_) => None,
            Ok(settings) => Some(self.configure(&settings)),
        }
    }

    /// Names an order that was taken: by the broker's number where it gave
    /// one, else by the count.  Either way the count goes up by one.
    pub fn take_order_id(&mut self, odno: Option<String>) -> (r: String)
        requires
            old(self)@.next_order_id < u64::MAX,
        ensures
            r@ == order_id_for(opt_view(odno), old(self)@.next_order_id),
            final(self)@ == (BrokerView {
                next_order_id: (old(self)@.next_order_id + 1) as u64,
                ..old(self)@
            }),
    {
        proof {
            use_type_invariant(&*self);
        }
        let id = match odno {
            Some(number) => number,
            None => {
                let count = decimal_text(self.next_order_id);
                joined("kr_", count.as_str())
            },
        };
        self.next_order_id = self.next_order_id + 1;
        id
    }

    /// One step of the order that the host asked for: a cash order to buy or
    /// to sell `quantity` shares of `symbol`.  Nothing where the plugin is
    /// not configured.
    pub fn submit_order(
        &mut self,
        state: &mut CallState,
        reply: Option<HttpResponse>,
        now: u64,
        symbol: &str,
        quantity: u32,
        limit_price: u32,
        side: OrderSide,
        order_type: HostOrderType,
    ) -> (r: Option<Outcome<CashOrderResponse>>)
        ensures
            match old(self)@.client {
                None => r is None && final(self)@ == old(self)@ && final(state)@ == old(state)@,
                Some(client) => {
                    let call = match side {
                        OrderSide::Buy => domestic_buy_call(
                            client.config,
                            symbol@,
                            quantity,
                            limit_price,
                            order_type.kis_type_spec(),
                        ),
                        OrderSide::Sell => domestic_sell_call(
                            client.config,
                            symbol@,
                            quantity,
                            limit_price,
                            order_type.kis_type_spec(),
                        ),
                    };
                    let step = client.call(old(state)@, opt_response(reply), now, call);
                    &&& final(self)@ == (BrokerView { client: Some(step.client), ..old(self)@ })
                    &&& final(state)@ == step.stage
                    &&& r matches Some(out) && single_outcome(step.outcome, out)
                },
            },
    {
        proof {
            use_type_invariant(&*self);
        }
        let mut held: Option<KisClient> = None;
        core::mem::swap(&mut held, &mut self.client);
        match held {
            None => None,
            Some(client) => {
                let mut client = client;
                let out = match side {
                    OrderSide::Buy => client.domestic_buy(
                        state,
                        reply,
                        now,
                        symbol,
                        quantity,
                        limit_price,
                        order_type.kis_type(),
                    ),
                    OrderSide::Sell => client.domestic_sell(
                        state,
                        reply,
                        now,
                        symbol,
                        quantity,
                        limit_price,
                        order_type.kis_type(),
                    ),
                };
                proof {
                    let before = old(self)@.client->Some_0;
                    lemma_call_keeps_config(
                        before,
                        old(state)@,
                        opt_response(reply),
                        now,
                        match side {
                            OrderSide::Buy => domestic_buy_call(
                                before.config,
                                symbol@,
                                quantity,
                                limit_price,
                                order_type.kis_type_spec(),
                            ),
                            OrderSide::Sell => domestic_sell_call(
                                before.config,
                                symbol@,
                                quantity,
                                limit_price,
                                order_type.kis_type_spec(),
                            ),
                        },
                    );
                }
                self.client = Some(client);
                Some(out)
            },
        }
    }

    /// One step of the inquiry into the balance of the account.  Nothing
    /// where the plugin is not configured.
    pub fn domestic_balance(
        &mut self,
        state: &mut CallState,
        reply: Option<HttpResponse>,
        now: u64,
    ) -> (r: Option<Outcome<(Vec<BalanceItem>, BalanceSummary)>>)
        ensures
            match old(self)@.client {
                None => r is None && final(self)@ == old(self)@ && final(state)@ == old(state)@,
                Some(client) => {
                    let step = client.call(
                        old(state)@,
                        opt_response(reply),
                        now,
                        domestic_balance_call(client.config),
                    );
                    &&& final(self)@ == (BrokerView { client: Some(step.client), ..old(self)@ })
                    &&& final(state)@ == step.stage
                    &&& r matches Some(out) && balance_outcome(step.outcome, out)
                },
            },
    {
        proof {
            use_type_invariant(&*self);
        }
        let mut held: Option<KisClient> = None;
        core::mem::swap(&mut held, &mut self.client);
        match held {
            None => None,
            Some(client) => {
                let mut client = client;
                let out = client.domestic_balance(state, reply, now);
                proof {
                    let before = old(self)@.client->Some_0;
                    lemma_call_keeps_config(
                        before,
                        old(state)@,
                        opt_response(reply),
                        now,
                        domestic_balance_call(before.config),
                    );
                }
                self.client = Some(client);
                Some(out)
            },
        }
    }
}

/// The texts of a holding that the host is shown as a position.
#[derive(Debug, Clone)]
pub struct PositionTexts {
    /// Stock code.
    pub symbol: String,
    /// Quantity held.
    pub quantity: String,
    /// Average price of purchase.
    pub average_price: String,
    /// Current price.
    pub current_price: String,
    /// Valuation profit or loss.
    pub profit_loss: String,
    /// Valuation profit or loss, as a rate.
    pub profit_loss_rate: String,
}

/// Whether a holding has all that a position is made of.
pub open spec fn is_complete(item: BalanceItem) -> bool {
    &&& item.pdno is Some
    &&& item.hldg_qty is Some
    &&& item.pchs_avg_pric is Some
    &&& item.prpr is Some
    &&& item.evlu_pfls_amt is Some
    &&& item.evlu_pfls_rt is Some
}

/// The texts of a holding that has all that a position is made of; nothing
/// for one that lacks any of it.
pub fn position_texts(item: &BalanceItem) -> (r: Option<PositionTexts>)
    ensures
        r is Some <==> is_complete(*item),
        r matches Some(texts) ==> {
            &&& Some(texts.symbol) == item.pdno
            &&& Some(texts.quantity) == item.hldg_qty
            &&& Some(texts.average_price) == item.pchs_avg_pric
            &&& Some(texts.current_price) == item.prpr
            &&& Some(texts.profit_loss) == item.evlu_pfls_amt
            &&& Some(texts.profit_loss_rate) == item.evlu_pfls_rt
        },
{
    match (
        &item.pdno,
        &item.hldg_qty,
        &item.pchs_avg_pric,
        &item.prpr,
        &item.evlu_pfls_amt,
        &item.evlu_pfls_rt,
    ) {
        (Some(symbol), Some(quantity), Some(average), Some(current), Some(amount), Some(rate)) => {
            Some(
                PositionTexts {
                    symbol: symbol.clone(),
                    quantity: quantity.clone(),
                    average_price: average.clone(),
                    current_price: current.clone(),
                    profit_loss: amount.clone(),
                    profit_loss_rate: rate.clone(),
                },
            )
        },
        _ => None,
    }
}

/// What the host is told of an order that failed.
pub fn rejection_text(error: &KisError) -> (r: String)
    ensures
        r@ == "Order failed: "@ + error@.describe(),
{
    let detail = error.describe();
    joined("Order failed: ", detail.as_str())
}

} // verus!
