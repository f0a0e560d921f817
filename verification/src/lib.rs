//! Typed client for a payment-wallet REST API: a pluggable transport
//! capability, a uniform success/error response envelope, JSON request
//! and response handling, and cursor-based pagination for the payment
//! history endpoint.
use vstd::prelude::*;

pub mod json;
pub mod models;
pub mod text;
pub mod transport;

use crate::json::FromJson;
use crate::json::Json;
use crate::json::JsonV;
use crate::json::json_num_end;
use crate::json::p_num_token_end;
use crate::json::obj_view;
use crate::json::lemma_obj_view;
use crate::json::json_to_string;
use crate::models::CommissionInfo;
use crate::models::CommissionInfoWrapper;
use crate::models::CommissionQuote;
use crate::models::PaymentHistoryData;
use crate::models::PaymentHistoryEntry;
use crate::models::ProfileInfo;
use crate::models::ProviderId;
use crate::models::QiwiCurrency;
use crate::models::QiwiUser;
use crate::models::TransferData;
use crate::models::TransferDirection;
use crate::text::dec_seq;
use crate::text::u64_to_dec;
use crate::transport::ApiError;
use crate::transport::CallerWrapper;
use crate::transport::Method;
use crate::transport::Transport;
use crate::transport::envelope_is_error;
use crate::transport::envelope_matches;

verus! {

/// A numeral this library will place into a request body as a JSON
/// number: exactly one number token of the JSON grammar, nothing more.
pub open spec fn wf_number(s: Seq<char>) -> bool {
    json_num_end(s, 0) == Some(s.len())
}

/// Checks `wf_number`, so an unverified caller can test an amount before
/// handing it to an operation that requires it.
pub fn check_number(s: &str) -> (r: bool)
    ensures
        r == wf_number(s@),
{
    let cs = crate::text::chars_of(s);
    match p_num_token_end(&cs, 0) {
        Some(e) => e == cs.len(),
        None => false,
    }
}

/// View of a parameter list: each pair of strings as its characters.
pub open spec fn pairs_view(ps: Seq<(String, String)>) -> Seq<(Seq<char>, Seq<char>)>
    decreases ps.len(),
{
    if ps.len() == 0 {
        Seq::empty()
    } else {
        seq![(ps[0].0@, ps[0].1@)] + pairs_view(ps.drop_first())
    }
}

pub proof fn lemma_pairs_view(ps: Seq<(String, String)>)
    ensures
        pairs_view(ps).len() == ps.len(),
        forall|i: int| 0 <= i < ps.len() ==> pairs_view(ps)[i] == ((#[trigger] ps[i]).0@,
        ps[i].1@),
    decreases ps.len(),
{
    if ps.len() > 0 {
        lemma_pairs_view(ps.drop_first());
        assert forall|i: int| 0 <= i < ps.len() implies pairs_view(ps)[i] == ((#[trigger] ps[i]).0@,
        ps[i].1@) by {
            if i > 0 {
                assert(pairs_view(ps)[i] == pairs_view(ps.drop_first())[i - 1]);
                assert(ps.drop_first()[i - 1] == ps[i]);
            }
        }
    }
}

/// The three boolean flags the profile endpoint is asked with.
pub open spec fn profile_params_spec() -> Seq<(Seq<char>, Seq<char>)> {
    seq![
        ("authInfoEnabled"@, "true"@),
        ("contractInfoEnabled"@, "true"@),
        ("userInfoEnabled"@, "true"@),
    ]
}

pub fn profile_params() -> (r: Vec<(String, String)>)
    ensures
        pairs_view(r@) == profile_params_spec(),
{
    let mut ps: Vec<(String, String)> = Vec::new();
    ps.push((String::from_str("authInfoEnabled"), String::from_str("true")));
    ps.push((String::from_str("contractInfoEnabled"), String::from_str("true")));
    ps.push((String::from_str("userInfoEnabled"), String::from_str("true")));
    proof {
        lemma_pairs_view(ps@);
        assert forall|i: int| 0 <= i < pairs_view(ps@).len() implies pairs_view(ps@)[i]
            == profile_params_spec()[i] by {
            assert(pairs_view(ps@)[i] == (ps@[i].0@, ps@[i].1@));
        }
        assert(pairs_view(ps@) =~= profile_params_spec());
    }
    ps
}

/// A page cursor: the next transaction's date and id, when the server
/// sent both; absence signals the end of the stream.
pub open spec fn page_cursor(p: PaymentHistoryData) -> Option<(Seq<char>, u64)> {
    match (p.next_txn_date, p.next_txn_id) {
        (Some(d), Some(i)) => Some((d@, i)),
        _ => None,
    }
}

/// The rows a full history walk yields from the given pages, in order:
/// each page's rows as received, page after page.
pub open spec fn pages_rows(pages: Seq<PaymentHistoryData>) -> Seq<PaymentHistoryEntry>
    decreases pages.len(),
{
    if pages.len() == 0 {
        Seq::empty()
    } else {
        pages[0].data@ + pages_rows(pages.drop_first())
    }
}

/// The sum of the per-page row counts.
pub open spec fn pages_row_count(pages: Seq<PaymentHistoryData>) -> nat
    decreases pages.len(),
{
    if pages.len() == 0 {
        0
    } else {
        pages[0].data@.len() + pages_row_count(pages.drop_first())
    }
}

/// A full walk yields every row of every page and nothing else: its length
/// is the sum of the per-page entry counts.
pub proof fn lemma_history_yield_length(pages: Seq<PaymentHistoryData>)
    ensures
        pages_rows(pages).len() == pages_row_count(pages),
    decreases pages.len(),
{
    if pages.len() > 0 {
        lemma_history_yield_length(pages.drop_first());
    }
}

/// A history page ends the stream exactly when either cursor field is
/// absent.
pub proof fn lemma_history_termination(p: PaymentHistoryData)
    ensures
        (page_cursor(p) is None) <==> (p.next_txn_date is None || p.next_txn_id is None),
{
}

pub open spec fn cursor_view(c: Option<(String, u64)>) -> Option<(Seq<char>, u64)> {
    match c {
        Some((d, i)) => Some((d@, i)),
        None => None,
    }
}

/// The history page request: fifty rows, and when a prior page gave a
/// cursor, exactly its date and id as the pagination parameters.
pub open spec fn history_params_spec(cursor: Option<(Seq<char>, u64)>) -> Seq<
    (Seq<char>, Seq<char>),
> {
    match cursor {
        None => seq![("rows"@, "50"@)],
        Some((d, i)) => seq![
            ("rows"@, "50"@),
            ("nextTxnDate"@, d),
            ("nextTxnId"@, dec_seq(i as nat)),
        ],
    }
}

pub fn history_params(cursor: &Option<(String, u64)>) -> (r: Vec<(String, String)>)
    ensures
        pairs_view(r@) == history_params_spec(cursor_view(*cursor)),
{
    let mut ps: Vec<(String, String)> = Vec::new();
    ps.push((String::from_str("rows"), String::from_str("50")));
    match cursor {
        Some((d, i)) => {
            ps.push((String::from_str("nextTxnDate"), d.clone()));
            ps.push((String::from_str("nextTxnId"), u64_to_dec(*i)));
        },
        None => {},
    }
    proof {
        lemma_pairs_view(ps@);
        assert forall|i: int| 0 <= i < pairs_view(ps@).len() implies pairs_view(ps@)[i]
            == history_params_spec(cursor_view(*cursor))[i] by {
            assert(pairs_view(ps@)[i] == (ps@[i].0@, ps@[i].1@));
        }
        assert(pairs_view(ps@) =~= history_params_spec(cursor_view(*cursor)));
    }
    ps
}

/// The history endpoint for one account.
pub open spec fn history_endpoint_spec(account: Seq<char>) -> Seq<char> {
    "payment-history/v2/persons/"@ + account + "/payments"@
}

pub fn history_endpoint(account: &str) -> (r: String)
    ensures
        r@ == history_endpoint_spec(account@),
{
    let mut s = String::from_str("payment-history/v2/persons/");
    s.append(account);
    s.append("/payments");
    s
}

/// The commission description endpoint for one provider.
pub open spec fn commission_form_endpoint_spec(provider: ProviderId) -> Seq<char> {
    "sinap/providers/"@ + dec_seq(provider.0 as nat) + "/form"@
}

pub fn commission_form_endpoint(provider: ProviderId) -> (r: String)
    ensures
        r@ == commission_form_endpoint_spec(provider),
{
    let mut s = String::from_str("sinap/providers/");
    s.append(u64_to_dec(provider.0).as_str());
    s.append("/form");
    s
}

/// The commission quoting endpoint for one provider.
pub open spec fn commission_quote_endpoint_spec(provider: ProviderId) -> Seq<char> {
    "sinap/providers/"@ + dec_seq(provider.0 as nat) + "/onlineCommission"@
}

pub fn commission_quote_endpoint(provider: ProviderId) -> (r: String)
    ensures
        r@ == commission_quote_endpoint_spec(provider),
{
    let mut s = String::from_str("sinap/providers/");
    s.append(u64_to_dec(provider.0).as_str());
    s.append("/onlineCommission");
    s
}

/// The payment endpoint for one provider.
pub open spec fn transfer_endpoint_spec(provider: u64) -> Seq<char> {
    "sinap/api/v2/terms/"@ + dec_seq(provider as nat) + "/payments"@
}

pub fn transfer_endpoint(provider: u64) -> (r: String)
    ensures
        r@ == transfer_endpoint_spec(provider),
{
    let mut s = String::from_str("sinap/api/v2/terms/");
    s.append(u64_to_dec(provider).as_str());
    s.append("/payments");
    s
}

/// The JSON body of a commission quote request: the target account, an
/// account-type payment method, and the purchase total — both the method's
/// account and the total's currency fixed to the wallet's base currency,
/// as the remote service expects.
pub open spec fn quote_body_spec(account: QiwiUser, amount: Seq<char>) -> JsonV {
    JsonV::Obj(
        seq![
            ("account"@, JsonV::Str(account.account_of())),
            (
                "payment_method"@,
                JsonV::Obj(
                    seq![
                        ("type"@, JsonV::Str("Account"@)),
                        ("accountId"@, JsonV::Str("643"@)),
                    ],
                ),
            ),
            (
                "purchaseTotals"@,
                JsonV::Obj(
                    seq![
                        (
                            "total"@,
                            JsonV::Obj(
                                seq![
                                    ("amount"@, JsonV::Num(amount)),
                                    ("currency"@, JsonV::Str("643"@)),
                                ],
                            ),
                        ),
                    ],
                ),
            ),
        ],
    )
}

pub fn quote_body(account: &QiwiUser, amount: &str) -> (b: Json)
    ensures
        b@ == quote_body_spec(*account, amount@),
{
    let mut pm: Vec<(String, Json)> = Vec::new();
    pm.push((String::from_str("type"), Json::Str(String::from_str("Account"))));
    pm.push((String::from_str("accountId"), Json::Str(String::from_str("643"))));
    proof {
        lemma_obj_view(pm@);
        assert forall|i: int| 0 <= i < obj_view(pm@).len() implies obj_view(pm@)[i] == seq![
            ("type"@, JsonV::Str("Account"@)),
            ("accountId"@, JsonV::Str("643"@)),
        ][i] by {
            assert(obj_view(pm@)[i] == (pm@[i].0@, crate::json::json_view(pm@[i].1)));
        }
        assert(obj_view(pm@) =~= seq![
            ("type"@, JsonV::Str("Account"@)),
            ("accountId"@, JsonV::Str("643"@)),
        ]);
    }
    let mut total: Vec<(String, Json)> = Vec::new();
    total.push((String::from_str("amount"), Json::Num(String::from_str(amount))));
    total.push((String::from_str("currency"), Json::Str(String::from_str("643"))));
    proof {
        lemma_obj_view(total@);
        assert forall|i: int| 0 <= i < obj_view(total@).len() implies obj_view(total@)[i] == seq![
            ("amount"@, JsonV::Num(amount@)),
            ("currency"@, JsonV::Str("643"@)),
        ][i] by {
            assert(obj_view(total@)[i] == (total@[i].0@, crate::json::json_view(total@[i].1)));
        }
        assert(obj_view(total@) =~= seq![
            ("amount"@, JsonV::Num(amount@)),
            ("currency"@, JsonV::Str("643"@)),
        ]);
    }
    let mut totals: Vec<(String, Json)> = Vec::new();
    totals.push((String::from_str("total"), Json::Obj(total)));
    proof {
        lemma_obj_view(totals@);
        assert forall|i: int| 0 <= i < obj_view(totals@).len() implies obj_view(totals@)[i] == seq![
            (
                "total"@,
                JsonV::Obj(seq![("amount"@, JsonV::Num(amount@)), ("currency"@, JsonV::Str("643"@))]),
            ),
        ][i] by {
            assert(obj_view(totals@)[i] == (totals@[i].0@, crate::json::json_view(totals@[i].1)));
        }
        assert(obj_view(totals@) =~= seq![
            (
                "total"@,
                JsonV::Obj(seq![("amount"@, JsonV::Num(amount@)), ("currency"@, JsonV::Str("643"@))]),
            ),
        ]);
    }
    let mut top: Vec<(String, Json)> = Vec::new();
    top.push((String::from_str("account"), Json::Str(account.account_id())));
    top.push((String::from_str("payment_method"), Json::Obj(pm)));
    top.push((String::from_str("purchaseTotals"), Json::Obj(totals)));
    let b = Json::Obj(top);
    proof {
        match b {
            Json::Obj(ref fs) => {
                lemma_obj_view(fs@);
                assert forall|i: int| 0 <= i < obj_view(fs@).len() implies obj_view(fs@)[i]
                    == quote_body_spec(*account, amount@)->Obj_0[i] by {
                    assert(obj_view(fs@)[i] == (fs@[i].0@, crate::json::json_view(fs@[i].1)));
                }
                assert(obj_view(fs@) =~= quote_body_spec(*account, amount@)->Obj_0);
            },
            _ => {},
        }
    }
    b
}

/// The JSON body of a transfer request: the idempotency id as a decimal
/// string, the sum in the direction's currency, an account-type payment
/// method in the base currency, the target account, and the comment.
pub open spec fn transfer_body_spec(
    id: u64,
    amount: Seq<char>,
    currency: QiwiCurrency,
    account: QiwiUser,
    comment: Seq<char>,
) -> JsonV {
    JsonV::Obj(
        seq![
            ("id"@, JsonV::Str(dec_seq(id as nat))),
            (
                "sum"@,
                JsonV::Obj(
                    seq![
                        ("amount"@, JsonV::Num(amount)),
                        ("currency"@, JsonV::Str(currency.text_of())),
                    ],
                ),
            ),
            (
                "paymentMethod"@,
                JsonV::Obj(
                    seq![
                        ("type"@, JsonV::Str("Account"@)),
                        ("accountId"@, JsonV::Str("643"@)),
                    ],
                ),
            ),
            ("fields"@, JsonV::Obj(seq![("account"@, JsonV::Str(account.account_of()))])),
            ("comment"@, JsonV::Str(comment)),
        ],
    )
}

pub fn transfer_body(
    id: u64,
    amount: &str,
    currency: QiwiCurrency,
    account: &QiwiUser,
    comment: &str,
) -> (b: Json)
    ensures
        b@ == transfer_body_spec(id, amount@, currency, *account, comment@),
{
    let mut sum: Vec<(String, Json)> = Vec::new();
    sum.push((String::from_str("amount"), Json::Num(String::from_str(amount))));
    sum.push((String::from_str("currency"), Json::Str(currency.currency_text())));
    proof {
        lemma_obj_view(sum@);
        assert forall|i: int| 0 <= i < obj_view(sum@).len() implies obj_view(sum@)[i] == seq![
            ("amount"@, JsonV::Num(amount@)),
            ("currency"@, JsonV::Str(currency.text_of())),
        ][i] by {
            assert(obj_view(sum@)[i] == (sum@[i].0@, crate::json::json_view(sum@[i].1)));
        }
        assert(obj_view(sum@) =~= seq![
            ("amount"@, JsonV::Num(amount@)),
            ("currency"@, JsonV::Str(currency.text_of())),
        ]);
    }
    let mut pm: Vec<(String, Json)> = Vec::new();
    pm.push((String::from_str("type"), Json::Str(String::from_str("Account"))));
    pm.push((String::from_str("accountId"), Json::Str(String::from_str("643"))));
    proof {
        lemma_obj_view(pm@);
        assert forall|i: int| 0 <= i < obj_view(pm@).len() implies obj_view(pm@)[i] == seq![
            ("type"@, JsonV::Str("Account"@)),
            ("accountId"@, JsonV::Str("643"@)),
        ][i] by {
            assert(obj_view(pm@)[i] == (pm@[i].0@, crate::json::json_view(pm@[i].1)));
        }
        assert(obj_view(pm@) =~= seq![
            ("type"@, JsonV::Str("Account"@)),
            ("accountId"@, JsonV::Str("643"@)),
        ]);
    }
    let mut fields: Vec<(String, Json)> = Vec::new();
    fields.push((String::from_str("account"), Json::Str(account.account_id())));
    proof {
        lemma_obj_view(fields@);
        assert forall|i: int| 0 <= i < obj_view(fields@).len() implies obj_view(fields@)[i] == seq![
            ("account"@, JsonV::Str(account.account_of())),
        ][i] by {
            assert(obj_view(fields@)[i] == (fields@[i].0@, crate::json::json_view(fields@[i].1)));
        }
        assert(obj_view(fields@) =~= seq![("account"@, JsonV::Str(account.account_of()))]);
    }
    let mut top: Vec<(String, Json)> = Vec::new();
    top.push((String::from_str("id"), Json::Str(u64_to_dec(id))));
    top.push((String::from_str("sum"), Json::Obj(sum)));
    top.push((String::from_str("paymentMethod"), Json::Obj(pm)));
    top.push((String::from_str("fields"), Json::Obj(fields)));
    top.push((String::from_str("comment"), Json::Str(String::from_str(comment))));
    let b = Json::Obj(top);
    proof {
        match b {
            Json::Obj(ref fs) => {
                lemma_obj_view(fs@);
                assert forall|i: int| 0 <= i < obj_view(fs@).len() implies obj_view(fs@)[i]
                    == transfer_body_spec(id, amount@, currency, *account, comment@)->Obj_0[i] by {
                    assert(obj_view(fs@)[i] == (fs@[i].0@, crate::json::json_view(fs@[i].1)));
                }
                assert(obj_view(fs@) =~= transfer_body_spec(
                    id,
                    amount@,
                    currency,
                    *account,
                    comment@,
                )->Obj_0);
            },
            _ => {},
        }
    }
    b
}

/// The provider a direction pays through: the wallet's own transfer
/// provider, or the named carrier.
pub open spec fn direction_provider(d: TransferDirection) -> u64 {
    match d {
        TransferDirection::Qiwi { .. } => 99,
        TransferDirection::Cellular { carrier, .. } => carrier,
    }
}

/// The currency the sum is written in: the caller's choice for a wallet
/// transfer, the base currency for a carrier top-up.
pub open spec fn direction_currency(d: TransferDirection) -> QiwiCurrency {
    match d {
        TransferDirection::Qiwi { to_currency, .. } => to_currency,
        TransferDirection::Cellular { .. } => QiwiCurrency(643),
    }
}

pub open spec fn direction_phone(d: TransferDirection) -> QiwiUser {
    match d {
        TransferDirection::Qiwi { to_phone, .. } => to_phone,
        TransferDirection::Cellular { to_phone, .. } => to_phone,
    }
}

pub fn resolve_direction(d: TransferDirection) -> (r: (u64, QiwiCurrency, QiwiUser))
    ensures
        r.0 == direction_provider(d),
        r.1 == direction_currency(d),
        r.2 == direction_phone(d),
{
    match d {
        TransferDirection::Qiwi { to_phone, to_currency } => (99, to_currency, to_phone),
        TransferDirection::Cellular { carrier, to_phone } => (carrier, QiwiCurrency(643), to_phone),
    }
}

/// Relies on std's `SystemTime::now` and `duration_since`: the Unix
/// timestamp in whole seconds. A clock reading before the epoch makes
/// `duration_since` fail and comes back as zero; no branch of the body
/// can panic. Nothing further can be promised of a clock.
#[verifier::external_body]
fn unix_now_seconds() -> u64 {
    match std::time::SystemTime::now().duration_since(std::time::UNIX_EPOCH) {
        Ok(d) => d.as_secs(),
        Err(_) => 0,
    }
}

/// The idempotency id a transfer uses: the caller's own, or the clock's
/// Unix seconds scaled to milliseconds, saturating at the numeric limit.
pub open spec fn effective_id(id: Option<u64>, now_seconds: u64) -> u64 {
    match id {
        Some(i) => i,
        None => if now_seconds * 1000 <= u64::MAX {
            (now_seconds * 1000) as u64
        } else {
            u64::MAX
        },
    }
}

pub fn transfer_id(id: Option<u64>, now_seconds: u64) -> (r: u64)
    ensures
        r == effective_id(id, now_seconds),
{
    match id {
        Some(i) => i,
        None => match now_seconds.checked_mul(1000) {
            Some(m) => m,
            None => u64::MAX,
        },
    }
}

/// Within one clock second, transfers without a caller-supplied id derive
/// the same idempotency id: the second count times one thousand. Finer
/// disambiguation than the clock's resolution is not promised.
pub proof fn lemma_default_id(now_seconds: u64)
    requires
        now_seconds * 1000 <= u64::MAX,
    ensures
        effective_id(None, now_seconds) == now_seconds * 1000,
{
}

/// The authenticated client: a caller over some transport and the user's
/// wallet identity.
pub struct Client<T> {
    pub caller: CallerWrapper<T>,
    pub user: QiwiUser,
}

/// A lazy, restartable walk of the payment history: holds the cursor of
/// the last page and fetches the next page on demand; after the end, or
/// after a failure, no further request is issued.
pub struct PaymentHistoryStream<'a, T> {
    pub caller: &'a CallerWrapper<T>,
    pub account: String,
    pub cursor: Option<(String, u64)>,
    pub done: bool,
}

impl<'a, T: Transport> PaymentHistoryStream<'a, T> {
    /// Fetches the next page, yields its rows in the order received, and
    /// keeps the server's cursor without validating it. `None` after the
    /// stream ended; a failed fetch ends the stream.
    pub fn next_page(&mut self) -> (r: Option<Result<PaymentHistoryData, ApiError>>)
        ensures
            old(self).done ==> r is None && *final(self) == *old(self),
            !old(self).done ==> r is Some,
            r matches Some(Err(_)) ==> final(self).done,
            r matches Some(Ok(page)) ==> {
                &&& exists|v: JsonV| #[trigger] page.agrees(v) && PaymentHistoryData::shape(v)
                    && !envelope_is_error(v)
                &&& cursor_view(final(self).cursor) == page_cursor(page)
                &&& final(self).done == (page_cursor(page) is None)
                &&& final(self).account@ == old(self).account@
            },
    {
        if self.done {
            return None;
        }
        let endpoint = history_endpoint(self.account.as_str());
        let params = history_params(&self.cursor);
        let rsp = match self.caller.call::<PaymentHistoryData>(
            endpoint.as_str(),
            Method::Get,
            &params,
            None,
        ) {
            Ok(rsp) => rsp,
            Err(e) => {
                self.done = true;
                return Some(Err(e));
            },
        };
        let ghost grsp = rsp;
        let page = match rsp.into_result() {
            Ok(p) => p,
            Err(e) => {
                self.done = true;
                return Some(Err(e));
            },
        };
        proof {
            let v0 = choose|v: JsonV| envelope_matches::<PaymentHistoryData>(v, grsp);
            assert(page.agrees(v0) && PaymentHistoryData::shape(v0) && !envelope_is_error(v0));
        }
        let next: Option<(String, u64)> = match (&page.next_txn_date, &page.next_txn_id) {
            (Some(d), Some(i)) => Some((d.clone(), *i)),
            _ => None,
        };
        match next {
            Some(c) => {
                self.cursor = Some(c);
            },
            None => {
                self.cursor = None;
                self.done = true;
            },
        }
        Some(Ok(page))
    }
}

impl<T: Transport> Client<T> {
    /// A ready-to-use client for one account over the given transport.
    pub fn new(user: QiwiUser, transport: T) -> (r: Client<T>)
        ensures
            r.user == user,
            r.caller.transport == transport,
    {
        Client { caller: CallerWrapper { transport }, user }
    }

    /// One GET of the profile document, with the three info sub-sections
    /// requested; unwraps the envelope.
    pub fn profile_info(&self) -> (r: Result<ProfileInfo, ApiError>)
        ensures
            r matches Ok(p) ==> exists|v: JsonV| #[trigger] p.agrees(v) && ProfileInfo::shape(v)
                && !envelope_is_error(v),
    {
        let params = profile_params();
        let rsp = match self.caller.call::<ProfileInfo>(
            "person-profile/v1/profile/current",
            Method::Get,
            &params,
            None,
        ) {
            Ok(rsp) => rsp,
            Err(e) => {
                return Err(e);
            },
        };
        let ghost grsp = rsp;
        let out = rsp.into_result();
        proof {
            match out {
                Ok(ref p) => {
                    let v0 = choose|v: JsonV| envelope_matches::<ProfileInfo>(v, grsp);
                    assert(p.agrees(v0) && ProfileInfo::shape(v0) && !envelope_is_error(v0));
                },
                _ => {},
            }
        }
        out
    }

    /// The lazy history walk, starting from no cursor; each call starts a
    /// fresh walk.
    pub fn payment_history(&self) -> (s: PaymentHistoryStream<'_, T>)
        ensures
            s.cursor is None,
            !s.done,
            s.account@ == self.user.account_of(),
    {
        PaymentHistoryStream {
            caller: &self.caller,
            account: self.user.account_id(),
            cursor: None,
            done: false,
        }
    }

    /// One GET of a provider's commission description; unwraps the form
    /// document to its commission part.
    pub fn commission_info(&self, provider: ProviderId) -> (r: Result<CommissionInfo, ApiError>)
        ensures
            r matches Ok(ci) ==> exists|v: JsonV, w: CommissionInfoWrapper| #[trigger] w.agrees(v)
                && CommissionInfoWrapper::shape(v) && !envelope_is_error(v) && ci == w.commission,
    {
        let url = commission_form_endpoint(provider);
        let params: Vec<(String, String)> = Vec::new();
        let rsp = match self.caller.call::<CommissionInfoWrapper>(
            url.as_str(),
            Method::Get,
            &params,
            None,
        ) {
            Ok(rsp) => rsp,
            Err(e) => {
                return Err(e);
            },
        };
        let ghost grsp = rsp;
        match rsp.into_result() {
            Err(e) => Err(e),
            Ok(w) => {
                proof {
                    let v0 = choose|v: JsonV| envelope_matches::<CommissionInfoWrapper>(v, grsp);
                    assert(w.agrees(v0) && CommissionInfoWrapper::shape(v0) && !envelope_is_error(
                        v0,
                    ));
                }
                Ok(w.commission)
            },
        }
    }

    /// Quotes the commission for paying `amount` to `account` through
    /// `provider`. The quote is always computed in the wallet's base
    /// currency, whatever currency a later transfer names: that mirrors
    /// the remote service's observed behaviour and is kept deliberately.
    pub fn commission_quote(
        &self,
        provider: ProviderId,
        account: QiwiUser,
        amount: &str,
    ) -> (r: Result<String, ApiError>)
        requires
            wf_number(amount@),
        ensures
            r matches Ok(a) ==> exists|v: JsonV, q: CommissionQuote| #[trigger] q.agrees(v)
                && CommissionQuote::shape(v) && !envelope_is_error(v) && a@
                == q.qw_commission.amount@,
    {
        let url = commission_quote_endpoint(provider);
        let body = quote_body(&account, amount);
        let body_text = json_to_string(&body);
        let params: Vec<(String, String)> = Vec::new();
        let rsp = match self.caller.call::<CommissionQuote>(
            url.as_str(),
            Method::Post,
            &params,
            Some(body_text.as_str()),
        ) {
            Ok(rsp) => rsp,
            Err(e) => {
                return Err(e);
            },
        };
        let ghost grsp = rsp;
        match rsp.into_result() {
            Err(e) => Err(e),
            Ok(q) => {
                proof {
                    let v0 = choose|v: JsonV| envelope_matches::<CommissionQuote>(v, grsp);
                    assert(q.agrees(v0) && CommissionQuote::shape(v0) && !envelope_is_error(v0));
                }
                Ok(q.qw_commission.amount)
            },
        }
    }

    /// Resolves the direction to provider, currency and target account,
    /// builds the payment body (deriving an idempotency id from the clock
    /// when none is given), POSTs it to the provider's payment endpoint,
    /// and returns the transfer's transaction.
    pub fn transfer(
        &self,
        id: Option<u64>,
        amount: &str,
        direction: TransferDirection,
        comment: &str,
    ) -> (r: Result<TransferData, ApiError>)
        requires
            wf_number(amount@),
        ensures
            r matches Ok(t) ==> exists|v: JsonV| #[trigger] t.agrees(v) && TransferData::shape(v)
                && !envelope_is_error(v),
    {
        let (provider, currency, account) = resolve_direction(direction);
        let now = unix_now_seconds();
        let pay_id = transfer_id(id, now);
        let url = transfer_endpoint(provider);
        let body = transfer_body(pay_id, amount, currency, &account, comment);
        let body_text = json_to_string(&body);
        let params: Vec<(String, String)> = Vec::new();
        let rsp = match self.caller.call::<TransferData>(
            url.as_str(),
            Method::Post,
            &params,
            Some(body_text.as_str()),
        ) {
            Ok(rsp) => rsp,
            Err(e) => {
                return Err(e);
            },
        };
        let ghost grsp = rsp;
        let out = rsp.into_result();
        proof {
            match out {
                Ok(ref t) => {
                    let v0 = choose|v: JsonV| envelope_matches::<TransferData>(v, grsp);
                    assert(t.agrees(v0) && TransferData::shape(v0) && !envelope_is_error(v0));
                },
                _ => {},
            }
        }
        out
    }
}

} // verus!
