//! Request and response records mirroring the remote API's JSON contracts,
//! each with an exact decoding specification, and the domain identifiers
//! (account, currency, provider, transfer direction).
use vstd::prelude::*;
use crate::json::FromJson;
use crate::json::Json;
use crate::json::JsonV;
use crate::json::jbool;
use crate::json::jstr;
use crate::json::jnum;
use crate::json::ju64;
use crate::json::jarr;
use crate::json::jobj;
use crate::json::jfield;
use crate::json::jopt_u64;
use crate::json::jopt_str;
use crate::json::arr_view;
use crate::json::obj_view;
use crate::json::get_bool;
use crate::json::get_str;
use crate::json::get_num_raw;
use crate::json::get_u64;
use crate::json::get_arr;
use crate::json::get_obj;
use crate::json::get_field;
use crate::json::get_opt_u64;
use crate::json::get_opt_str;
use crate::json::from_json_arr;
use crate::json::clone_json_obj;
use crate::text::eq_str;
use crate::text::dec_seq;
use crate::text::dec3_seq;
use crate::text::push_dec;
use crate::text::chars_to_string;

verus! {

/// A wallet account: a phone number held as its country calling code and
/// national significant number, written as one digit string.
#[derive(Clone, Copy, Debug, PartialEq, Eq, Structural)]
pub struct QiwiUser {
    pub code: u16,
    pub national: u64,
}

impl QiwiUser {
    /// A well-formed account: a real calling code and a national number
    /// whose digits fit the international numbering plan.
    pub open spec fn wf(&self) -> bool {
        1 <= self.code <= 999 && 1 <= self.national < 1_000_000_000_000_000
    }

    /// The account identifier: calling code then national number, no symbols.
    pub open spec fn account_of(&self) -> Seq<char> {
        dec_seq(self.code as nat) + dec_seq(self.national as nat)
    }

    /// Accepts the parts of a phone number; refuses malformed ones before
    /// any network call.
    pub fn new(code: u16, national: u64) -> (r: Option<QiwiUser>)
        ensures
            r matches Some(u) ==> u.wf() && u.code == code && u.national == national,
            r is None <==> !(QiwiUser { code, national }).wf(),
    {
        if 1 <= code && code <= 999 && 1 <= national && national < 1_000_000_000_000_000 {
            Some(QiwiUser { code, national })
        } else {
            None
        }
    }

    /// The account identifier as a string.
    pub fn account_id(&self) -> (r: String)
        ensures
            r@ == self.account_of(),
    {
        let mut out: Vec<char> = Vec::new();
        push_dec(self.code as u64, &mut out);
        push_dec(self.national, &mut out);
        chars_to_string(&out)
    }
}

/// A currency as its ISO numeric code, written zero-padded to three digits.
#[derive(Clone, Copy, Debug, PartialEq, Eq, Structural)]
pub struct QiwiCurrency(pub u16);

impl QiwiCurrency {
    pub open spec fn wf(&self) -> bool {
        self.0 <= 999
    }

    /// The wallet's base currency (Russian rouble, ISO numeric 643).
    pub fn rub() -> (r: QiwiCurrency)
        ensures
            r.0 == 643,
            r.wf(),
    {
        QiwiCurrency(643)
    }

    pub open spec fn text_of(&self) -> Seq<char> {
        dec3_seq(self.0 as nat)
    }

    /// The three-digit code as a string.
    pub fn currency_text(&self) -> (r: String)
        ensures
            r@ == self.text_of(),
    {
        let mut out: Vec<char> = Vec::new();
        if self.0 < 10 {
            out.push('0');
            out.push('0');
        } else if self.0 < 100 {
            out.push('0');
        }
        push_dec(self.0 as u64, &mut out);
        proof {
            if self.0 < 10 {
                assert(out@ =~= seq!['0', '0'] + dec_seq(self.0 as nat));
            } else if self.0 < 100 {
                assert(out@ =~= seq!['0'] + dec_seq(self.0 as nat));
            }
        }
        chars_to_string(&out)
    }
}

/// A payment provider's numeric identifier.
#[derive(Clone, Copy, Debug, PartialEq, Eq, Structural)]
pub struct ProviderId(pub u64);

impl ProviderId {
    pub fn qiwi() -> (r: ProviderId)
        ensures
            r.0 == 99,
    {
        ProviderId(99)
    }

    pub fn visa_ru() -> (r: ProviderId)
        ensures
            r.0 == 1963,
    {
        ProviderId(1963)
    }

    pub fn visa_cis() -> (r: ProviderId)
        ensures
            r.0 == 1960,
    {
        ProviderId(1960)
    }

    pub fn mastercard_ru() -> (r: ProviderId)
        ensures
            r.0 == 21013,
    {
        ProviderId(21013)
    }

    pub fn mastercard_cis() -> (r: ProviderId)
        ensures
            r.0 == 21012,
    {
        ProviderId(21012)
    }

    pub fn mir() -> (r: ProviderId)
        ensures
            r.0 == 31652,
    {
        ProviderId(31652)
    }

    pub fn tinkoff() -> (r: ProviderId)
        ensures
            r.0 == 466,
    {
        ProviderId(466)
    }

    pub fn alfabank() -> (r: ProviderId)
        ensures
            r.0 == 464,
    {
        ProviderId(464)
    }

    pub fn promsvyazbank() -> (r: ProviderId)
        ensures
            r.0 == 821,
    {
        ProviderId(821)
    }

    pub fn russian_standard() -> (r: ProviderId)
        ensures
            r.0 == 815,
    {
        ProviderId(815)
    }

    pub fn other_bank() -> (r: ProviderId)
        ensures
            r.0 == 1717,
    {
        ProviderId(1717)
    }
}

/// Where a transfer goes: another wallet in a chosen currency, or a mobile
/// carrier top-up in the base currency.
#[derive(Clone, Copy, Debug, PartialEq, Eq, Structural)]
pub enum TransferDirection {
    Qiwi { to_phone: QiwiUser, to_currency: QiwiCurrency },
    Cellular { carrier: u64, to_phone: QiwiUser },
}

#[derive(Clone, Debug, PartialEq)]
pub struct MobilePinInfo {
    pub mobile_pin_used: bool,
    pub last_mobile_pin_change: String,
    pub next_mobile_pin_change: String,
}

impl FromJson for MobilePinInfo {
    open spec fn shape(v: JsonV) -> bool {
        &&& jbool(v, "mobilePinUsed"@) is Some
        &&& jstr(v, "lastMobilePinChange"@) is Some
        &&& jstr(v, "nextMobilePinChange"@) is Some
    }

    open spec fn agrees(&self, v: JsonV) -> bool {
        &&& Some(self.mobile_pin_used) == jbool(v, "mobilePinUsed"@)
        &&& Some(self.last_mobile_pin_change@) == jstr(v, "lastMobilePinChange"@)
        &&& Some(self.next_mobile_pin_change@) == jstr(v, "nextMobilePinChange"@)
    }

    fn from_json(v: &Json) -> (r: Option<Self>) {
        let mobile_pin_used = match get_bool(v, "mobilePinUsed") {
            Some(x) => x,
            None => return None,
        };
        let last_mobile_pin_change = match get_str(v, "lastMobilePinChange") {
            Some(x) => x.clone(),
            None => return None,
        };
        let next_mobile_pin_change = match get_str(v, "nextMobilePinChange") {
            Some(x) => x.clone(),
            None => return None,
        };
        Some(MobilePinInfo { mobile_pin_used, last_mobile_pin_change, next_mobile_pin_change })
    }
}

#[derive(Clone, Debug, PartialEq)]
pub struct PassInfo {
    pub password_used: bool,
    pub last_pass_change: String,
    pub next_pass_change: String,
}

impl FromJson for PassInfo {
    open spec fn shape(v: JsonV) -> bool {
        &&& jbool(v, "passwordUsed"@) is Some
        &&& jstr(v, "lastPassChange"@) is Some
        &&& jstr(v, "nextPassChange"@) is Some
    }

    open spec fn agrees(&self, v: JsonV) -> bool {
        &&& Some(self.password_used) == jbool(v, "passwordUsed"@)
        &&& Some(self.last_pass_change@) == jstr(v, "lastPassChange"@)
        &&& Some(self.next_pass_change@) == jstr(v, "nextPassChange"@)
    }

    fn from_json(v: &Json) -> (r: Option<Self>) {
        let password_used = match get_bool(v, "passwordUsed") {
            Some(x) => x,
            None => return None,
        };
        let last_pass_change = match get_str(v, "lastPassChange") {
            Some(x) => x.clone(),
            None => return None,
        };
        let next_pass_change = match get_str(v, "nextPassChange") {
            Some(x) => x.clone(),
            None => return None,
        };
        Some(PassInfo { password_used, last_pass_change, next_pass_change })
    }
}

#[derive(Clone, Debug, PartialEq)]
pub struct PinInfo {
    pub pin_used: bool,
}

impl FromJson for PinInfo {
    open spec fn shape(v: JsonV) -> bool {
        jbool(v, "pinUsed"@) is Some
    }

    open spec fn agrees(&self, v: JsonV) -> bool {
        Some(self.pin_used) == jbool(v, "pinUsed"@)
    }

    fn from_json(v: &Json) -> (r: Option<Self>) {
        let pin_used = match get_bool(v, "pinUsed") {
            Some(x) => x,
            None => return None,
        };
        Some(PinInfo { pin_used })
    }
}

/// The remote identification tiers, written in upper case on the wire.
#[derive(Clone, Copy, Debug, PartialEq, Eq, Structural)]
pub enum IdentificationLevel {
    Anonymous,
    Simple,
    Verified,
    Full,
}

impl IdentificationLevel {
    pub open spec fn level_text(&self) -> Seq<char> {
        match self {
            IdentificationLevel::Anonymous => "ANONYMOUS"@,
            IdentificationLevel::Simple => "SIMPLE"@,
            IdentificationLevel::Verified => "VERIFIED"@,
            IdentificationLevel::Full => "FULL"@,
        }
    }
}

impl FromJson for IdentificationLevel {
    open spec fn shape(v: JsonV) -> bool {
        v matches JsonV::Str(s) && (s == "ANONYMOUS"@ || s == "SIMPLE"@ || s == "VERIFIED"@ || s
            == "FULL"@)
    }

    open spec fn agrees(&self, v: JsonV) -> bool {
        v == JsonV::Str(self.level_text())
    }

    fn from_json(v: &Json) -> (r: Option<Self>) {
        match v {
            Json::Str(s) => {
                if eq_str(s.as_str(), "ANONYMOUS") {
                    Some(IdentificationLevel::Anonymous)
                } else if eq_str(s.as_str(), "SIMPLE") {
                    Some(IdentificationLevel::Simple)
                } else if eq_str(s.as_str(), "VERIFIED") {
                    Some(IdentificationLevel::Verified)
                } else if eq_str(s.as_str(), "FULL") {
                    Some(IdentificationLevel::Full)
                } else {
                    None
                }
            },
            _ => None,
        }
    }
}

#[derive(Clone, Debug, PartialEq)]
pub struct IdentificationInfo {
    pub bank_alias: String,
    pub identification_level: IdentificationLevel,
}

impl FromJson for IdentificationInfo {
    open spec fn shape(v: JsonV) -> bool {
        &&& jstr(v, "bankAlias"@) is Some
        &&& jfield(v, "identificationLevel"@) matches Some(lv)
            && IdentificationLevel::shape(lv)
    }

    open spec fn agrees(&self, v: JsonV) -> bool {
        &&& Some(self.bank_alias@) == jstr(v, "bankAlias"@)
        &&& jfield(v, "identificationLevel"@) matches Some(lv)
            && self.identification_level.agrees(lv)
    }

    fn from_json(v: &Json) -> (r: Option<Self>) {
        let bank_alias = match get_str(v, "bankAlias") {
            Some(x) => x.clone(),
            None => return None,
        };
        let identification_level = match get_field(v, "identificationLevel") {
            Some(lv) => match IdentificationLevel::from_json(lv) {
                Some(l) => l,
                None => return None,
            },
            None => return None,
        };
        Some(IdentificationInfo { bank_alias, identification_level })
    }
}

#[derive(Clone, Debug, PartialEq)]
pub struct UserInfo {
    pub default_pay_currency: u64,
    pub default_pay_source: u64,
    pub email: String,
    pub first_txn_id: u64,
    pub language: String,
    pub operator: String,
    pub phone_hash: String,
    pub promo_enabled: String,
}

impl FromJson for UserInfo {
    open spec fn shape(v: JsonV) -> bool {
        &&& ju64(v, "defaultPayCurrency"@) is Some
        &&& ju64(v, "defaultPaySource"@) is Some
        &&& jstr(v, "email"@) is Some
        &&& ju64(v, "firstTxnId"@) is Some
        &&& jstr(v, "language"@) is Some
        &&& jstr(v, "operator"@) is Some
        &&& jstr(v, "phoneHash"@) is Some
        &&& jstr(v, "promoEnabled"@) is Some
    }

    open spec fn agrees(&self, v: JsonV) -> bool {
        &&& Some(self.default_pay_currency) == ju64(v, "defaultPayCurrency"@)
        &&& Some(self.default_pay_source) == ju64(v, "defaultPaySource"@)
        &&& Some(self.email@) == jstr(v, "email"@)
        &&& Some(self.first_txn_id) == ju64(v, "firstTxnId"@)
        &&& Some(self.language@) == jstr(v, "language"@)
        &&& Some(self.operator@) == jstr(v, "operator"@)
        &&& Some(self.phone_hash@) == jstr(v, "phoneHash"@)
        &&& Some(self.promo_enabled@) == jstr(v, "promoEnabled"@)
    }

    fn from_json(v: &Json) -> (r: Option<Self>) {
        let default_pay_currency = match get_u64(v, "defaultPayCurrency") {
            Some(x) => x,
            None => return None,
        };
        let default_pay_source = match get_u64(v, "defaultPaySource") {
            Some(x) => x,
            None => return None,
        };
        let email = match get_str(v, "email") {
            Some(x) => x.clone(),
            None => return None,
        };
        let first_txn_id = match get_u64(v, "firstTxnId") {
            Some(x) => x,
            None => return None,
        };
        let language = match get_str(v, "language") {
            Some(x) => x.clone(),
            None => return None,
        };
        let operator = match get_str(v, "operator") {
            Some(x) => x.clone(),
            None => return None,
        };
        let phone_hash = match get_str(v, "phoneHash") {
            Some(x) => x.clone(),
            None => return None,
        };
        let promo_enabled = match get_str(v, "promoEnabled") {
            Some(x) => x.clone(),
            None => return None,
        };
        Some(
            UserInfo {
                default_pay_currency,
                default_pay_source,
                email,
                first_txn_id,
                language,
                operator,
                phone_hash,
                promo_enabled,
            },
        )
    }
}

} // verus!

verus! {

#[derive(Clone, Debug, PartialEq)]
pub struct ContractInfo {
    pub blocked: bool,
    pub contract_id: u64,
    pub creation_date: String,
    pub features: Vec<Json>,
    pub identification_info: Vec<IdentificationLevel>,
    pub user_info: UserInfo,
}

impl FromJson for ContractInfo {
    open spec fn shape(v: JsonV) -> bool {
        &&& jbool(v, "blocked"@) is Some
        &&& ju64(v, "contractId"@) is Some
        &&& jstr(v, "creationDate"@) is Some
        &&& jarr(v, "features"@) is Some
        &&& jarr(v, "identificationInfo"@) matches Some(es)
            && crate::json::all_shaped::<IdentificationLevel>(es)
        &&& jfield(v, "userInfo"@) matches Some(uv) && UserInfo::shape(uv)
    }

    open spec fn agrees(&self, v: JsonV) -> bool {
        &&& Some(self.blocked) == jbool(v, "blocked"@)
        &&& Some(self.contract_id) == ju64(v, "contractId"@)
        &&& Some(self.creation_date@) == jstr(v, "creationDate"@)
        &&& jarr(v, "features"@) == Some(arr_view(self.features@))
        &&& jarr(v, "identificationInfo"@) matches Some(es) && crate::json::all_agree(
            self.identification_info@,
            es,
        )
        &&& jfield(v, "userInfo"@) matches Some(uv) && self.user_info.agrees(uv)
    }

    fn from_json(v: &Json) -> (r: Option<Self>) {
        let blocked = match get_bool(v, "blocked") {
            Some(x) => x,
            None => return None,
        };
        let contract_id = match get_u64(v, "contractId") {
            Some(x) => x,
            None => return None,
        };
        let creation_date = match get_str(v, "creationDate") {
            Some(x) => x.clone(),
            None => return None,
        };
        let features = match get_arr(v, "features") {
            Some(es) => crate::json::clone_json_arr(es),
            None => return None,
        };
        let identification_info = match get_arr(v, "identificationInfo") {
            Some(es) => match from_json_arr::<IdentificationLevel>(es) {
                Some(ls) => ls,
                None => return None,
            },
            None => return None,
        };
        let user_info = match get_field(v, "userInfo") {
            Some(uv) => match UserInfo::from_json(uv) {
                Some(u) => u,
                None => return None,
            },
            None => return None,
        };
        Some(
            ContractInfo {
                blocked,
                contract_id,
                creation_date,
                features,
                identification_info,
                user_info,
            },
        )
    }
}

#[derive(Clone, Debug, PartialEq)]
pub struct AuthInfo {
    pub person_id: u64,
    pub registration_date: String,
    pub bound_email: Option<String>,
    pub ip: String,
    pub last_login_date: Option<String>,
    pub mobile_pin_info: MobilePinInfo,
    pub pass_info: PassInfo,
    pub pin_info: PinInfo,
    pub contract_info: Option<ContractInfo>,
}

impl FromJson for AuthInfo {
    open spec fn shape(v: JsonV) -> bool {
        &&& ju64(v, "personId"@) is Some
        &&& jstr(v, "registrationDate"@) is Some
        &&& jopt_str(v, "boundEmail"@) is Some
        &&& jstr(v, "ip"@) is Some
        &&& jopt_str(v, "lastLoginDate"@) is Some
        &&& jfield(v, "mobilePinInfo"@) matches Some(mv) && MobilePinInfo::shape(mv)
        &&& jfield(v, "passInfo"@) matches Some(pv) && PassInfo::shape(pv)
        &&& jfield(v, "pinInfo"@) matches Some(nv) && PinInfo::shape(nv)
        &&& match jfield(v, "contractInfo"@) {
            None => true,
            Some(JsonV::Null) => true,
            Some(cv) => ContractInfo::shape(cv),
        }
    }

    open spec fn agrees(&self, v: JsonV) -> bool {
        &&& Some(self.person_id) == ju64(v, "personId"@)
        &&& Some(self.registration_date@) == jstr(v, "registrationDate"@)
        &&& match jopt_str(v, "boundEmail"@) {
            Some(Some(s)) => self.bound_email matches Some(e) && e@ == s,
            Some(None) => self.bound_email is None,
            None => false,
        }
        &&& Some(self.ip@) == jstr(v, "ip"@)
        &&& match jopt_str(v, "lastLoginDate"@) {
            Some(Some(s)) => self.last_login_date matches Some(d) && d@ == s,
            Some(None) => self.last_login_date is None,
            None => false,
        }
        &&& jfield(v, "mobilePinInfo"@) matches Some(mv) && self.mobile_pin_info.agrees(mv)
        &&& jfield(v, "passInfo"@) matches Some(pv) && self.pass_info.agrees(pv)
        &&& jfield(v, "pinInfo"@) matches Some(nv) && self.pin_info.agrees(nv)
        &&& match jfield(v, "contractInfo"@) {
            None => self.contract_info is None,
            Some(JsonV::Null) => self.contract_info is None,
            Some(cv) => self.contract_info matches Some(ci) && ci.agrees(cv),
        }
    }

    fn from_json(v: &Json) -> (r: Option<Self>) {
        let person_id = match get_u64(v, "personId") {
            Some(x) => x,
            None => return None,
        };
        let registration_date = match get_str(v, "registrationDate") {
            Some(x) => x.clone(),
            None => return None,
        };
        let bound_email = match get_opt_str(v, "boundEmail") {
            Some(x) => x,
            None => return None,
        };
        let ip = match get_str(v, "ip") {
            Some(x) => x.clone(),
            None => return None,
        };
        let last_login_date = match get_opt_str(v, "lastLoginDate") {
            Some(x) => x,
            None => return None,
        };
        let mobile_pin_info = match get_field(v, "mobilePinInfo") {
            Some(mv) => match MobilePinInfo::from_json(mv) {
                Some(m) => m,
                None => return None,
            },
            None => return None,
        };
        let pass_info = match get_field(v, "passInfo") {
            Some(pv) => match PassInfo::from_json(pv) {
                Some(p) => p,
                None => return None,
            },
            None => return None,
        };
        let pin_info = match get_field(v, "pinInfo") {
            Some(nv) => match PinInfo::from_json(nv) {
                Some(p) => p,
                None => return None,
            },
            None => return None,
        };
        let contract_info = match get_field(v, "contractInfo") {
            None => None,
            Some(Json::Null) => None,
            Some(cv) => match ContractInfo::from_json(cv) {
                Some(ci) => Some(ci),
                None => return None,
            },
        };
        Some(
            AuthInfo {
                person_id,
                registration_date,
                bound_email,
                ip,
                last_login_date,
                mobile_pin_info,
                pass_info,
                pin_info,
                contract_info,
            },
        )
    }
}

#[derive(Clone, Debug, PartialEq)]
pub struct ProfileInfo {
    pub auth_info: AuthInfo,
}

impl FromJson for ProfileInfo {
    open spec fn shape(v: JsonV) -> bool {
        jfield(v, "authInfo"@) matches Some(av) && AuthInfo::shape(av)
    }

    open spec fn agrees(&self, v: JsonV) -> bool {
        jfield(v, "authInfo"@) matches Some(av) && self.auth_info.agrees(av)
    }

    fn from_json(v: &Json) -> (r: Option<Self>) {
        let auth_info = match get_field(v, "authInfo") {
            Some(av) => match AuthInfo::from_json(av) {
                Some(a) => a,
                None => return None,
            },
            None => return None,
        };
        Some(ProfileInfo { auth_info })
    }
}

/// Whether a payment entered or left the wallet, as the wire writes it.
#[derive(Clone, Copy, Debug, PartialEq, Eq, Structural)]
pub enum PaymentType {
    In,
    Out,
    QiwiCard,
}

impl PaymentType {
    pub open spec fn type_text(&self) -> Seq<char> {
        match self {
            PaymentType::In => "IN"@,
            PaymentType::Out => "OUT"@,
            PaymentType::QiwiCard => "QIWI_CARD"@,
        }
    }
}

impl FromJson for PaymentType {
    open spec fn shape(v: JsonV) -> bool {
        v matches JsonV::Str(s) && (s == "IN"@ || s == "OUT"@ || s == "QIWI_CARD"@)
    }

    open spec fn agrees(&self, v: JsonV) -> bool {
        v == JsonV::Str(self.type_text())
    }

    fn from_json(v: &Json) -> (r: Option<Self>) {
        match v {
            Json::Str(s) => {
                if eq_str(s.as_str(), "IN") {
                    Some(PaymentType::In)
                } else if eq_str(s.as_str(), "OUT") {
                    Some(PaymentType::Out)
                } else if eq_str(s.as_str(), "QIWI_CARD") {
                    Some(PaymentType::QiwiCard)
                } else {
                    None
                }
            },
            _ => None,
        }
    }
}

#[derive(Clone, Copy, Debug, PartialEq, Eq, Structural)]
pub enum PaymentStatus {
    Waiting,
    Success,
    Error,
}

impl PaymentStatus {
    pub open spec fn status_text(&self) -> Seq<char> {
        match self {
            PaymentStatus::Waiting => "WAITING"@,
            PaymentStatus::Success => "SUCCESS"@,
            PaymentStatus::Error => "ERROR"@,
        }
    }
}

impl FromJson for PaymentStatus {
    open spec fn shape(v: JsonV) -> bool {
        v matches JsonV::Str(s) && (s == "WAITING"@ || s == "SUCCESS"@ || s == "ERROR"@)
    }

    open spec fn agrees(&self, v: JsonV) -> bool {
        v == JsonV::Str(self.status_text())
    }

    fn from_json(v: &Json) -> (r: Option<Self>) {
        match v {
            Json::Str(s) => {
                if eq_str(s.as_str(), "WAITING") {
                    Some(PaymentStatus::Waiting)
                } else if eq_str(s.as_str(), "SUCCESS") {
                    Some(PaymentStatus::Success)
                } else if eq_str(s.as_str(), "ERROR") {
                    Some(PaymentStatus::Error)
                } else {
                    None
                }
            },
            _ => None,
        }
    }
}

/// An amount with its currency; the amount keeps the wire's raw numeral.
#[derive(Clone, Debug, PartialEq)]
pub struct PaymentSumData {
    pub amount: String,
    pub currency: String,
}

impl FromJson for PaymentSumData {
    open spec fn shape(v: JsonV) -> bool {
        &&& jnum(v, "amount"@) is Some
        &&& jstr(v, "currency"@) is Some
    }

    open spec fn agrees(&self, v: JsonV) -> bool {
        &&& Some(self.amount@) == jnum(v, "amount"@)
        &&& Some(self.currency@) == jstr(v, "currency"@)
    }

    fn from_json(v: &Json) -> (r: Option<Self>) {
        let amount = match get_num_raw(v, "amount") {
            Some(x) => x.clone(),
            None => return None,
        };
        let currency = match get_str(v, "currency") {
            Some(x) => x.clone(),
            None => return None,
        };
        Some(PaymentSumData { amount, currency })
    }
}

#[derive(Clone, Debug, PartialEq)]
pub struct ProviderData {
    pub id: u64,
    pub short_name: String,
    pub long_name: String,
    pub logo_url: String,
    pub description: String,
    pub keys: String,
    pub site_url: String,
}

impl FromJson for ProviderData {
    open spec fn shape(v: JsonV) -> bool {
        &&& ju64(v, "id"@) is Some
        &&& jstr(v, "shortName"@) is Some
        &&& jstr(v, "longName"@) is Some
        &&& jstr(v, "logoUrl"@) is Some
        &&& jstr(v, "description"@) is Some
        &&& jstr(v, "keys"@) is Some
        &&& jstr(v, "siteUrl"@) is Some
    }

    open spec fn agrees(&self, v: JsonV) -> bool {
        &&& Some(self.id) == ju64(v, "id"@)
        &&& Some(self.short_name@) == jstr(v, "shortName"@)
        &&& Some(self.long_name@) == jstr(v, "longName"@)
        &&& Some(self.logo_url@) == jstr(v, "logoUrl"@)
        &&& Some(self.description@) == jstr(v, "description"@)
        &&& Some(self.keys@) == jstr(v, "keys"@)
        &&& Some(self.site_url@) == jstr(v, "siteUrl"@)
    }

    fn from_json(v: &Json) -> (r: Option<Self>) {
        let id = match get_u64(v, "id") {
            Some(x) => x,
            None => return None,
        };
        let short_name = match get_str(v, "shortName") {
            Some(x) => x.clone(),
            None => return None,
        };
        let long_name = match get_str(v, "longName") {
            Some(x) => x.clone(),
            None => return None,
        };
        let logo_url = match get_str(v, "logoUrl") {
            Some(x) => x.clone(),
            None => return None,
        };
        let description = match get_str(v, "description") {
            Some(x) => x.clone(),
            None => return None,
        };
        let keys = match get_str(v, "keys") {
            Some(x) => x.clone(),
            None => return None,
        };
        let site_url = match get_str(v, "siteUrl") {
            Some(x) => x.clone(),
            None => return None,
        };
        Some(
            ProviderData { id, short_name, long_name, logo_url, description, keys, site_url },
        )
    }
}

} // verus!

verus! {

/// One row of the payment history, as the wire sends it.
#[derive(Clone, Debug, PartialEq)]
pub struct PaymentHistoryEntry {
    pub txn_id: u64,
    pub person_id: u64,
    pub date: String,
    pub error_code: u64,
    pub error: String,
    pub payment_type: PaymentType,
    pub status: PaymentStatus,
    pub status_text: String,
    pub trm_txn_id: String,
    pub account: String,
    pub sum: PaymentSumData,
    pub commission: PaymentSumData,
    pub total: PaymentSumData,
    pub provider: ProviderData,
    pub comment: String,
    pub currency_rate: String,
    pub extras: Vec<(String, Json)>,
    pub cheque_ready: bool,
    pub bank_document_available: bool,
    pub bank_document_ready: bool,
    pub repeat_payment_enabled: bool,
    pub favorite_payment_enabled: bool,
    pub regular_payment_enabled: bool,
}

impl FromJson for PaymentHistoryEntry {
    open spec fn shape(v: JsonV) -> bool {
        &&& ju64(v, "txnId"@) is Some
        &&& ju64(v, "personId"@) is Some
        &&& jstr(v, "date"@) is Some
        &&& ju64(v, "errorCode"@) is Some
        &&& jstr(v, "error"@) is Some
        &&& jfield(v, "type"@) matches Some(tv) && PaymentType::shape(tv)
        &&& jfield(v, "status"@) matches Some(sv) && PaymentStatus::shape(sv)
        &&& jstr(v, "statusText"@) is Some
        &&& jstr(v, "trmTxnId"@) is Some
        &&& jstr(v, "account"@) is Some
        &&& jfield(v, "sum"@) matches Some(mv) && PaymentSumData::shape(mv)
        &&& jfield(v, "commission"@) matches Some(cv) && PaymentSumData::shape(cv)
        &&& jfield(v, "total"@) matches Some(ov) && PaymentSumData::shape(ov)
        &&& jfield(v, "provider"@) matches Some(pv) && ProviderData::shape(pv)
        &&& jstr(v, "comment"@) is Some
        &&& jnum(v, "currencyRate"@) is Some
        &&& jobj(v, "extras"@) is Some
        &&& jbool(v, "chequeReady"@) is Some
        &&& jbool(v, "bankDocumentAvailable"@) is Some
        &&& jbool(v, "bankDocumentReady"@) is Some
        &&& jbool(v, "repeatPaymentEnabled"@) is Some
        &&& jbool(v, "favoritePaymentEnabled"@) is Some
        &&& jbool(v, "regularPaymentEnabled"@) is Some
    }

    open spec fn agrees(&self, v: JsonV) -> bool {
        &&& Some(self.txn_id) == ju64(v, "txnId"@)
        &&& Some(self.person_id) == ju64(v, "personId"@)
        &&& Some(self.date@) == jstr(v, "date"@)
        &&& Some(self.error_code) == ju64(v, "errorCode"@)
        &&& Some(self.error@) == jstr(v, "error"@)
        &&& jfield(v, "type"@) matches Some(tv) && self.payment_type.agrees(tv)
        &&& jfield(v, "status"@) matches Some(sv) && self.status.agrees(sv)
        &&& Some(self.status_text@) == jstr(v, "statusText"@)
        &&& Some(self.trm_txn_id@) == jstr(v, "trmTxnId"@)
        &&& Some(self.account@) == jstr(v, "account"@)
        &&& jfield(v, "sum"@) matches Some(mv) && self.sum.agrees(mv)
        &&& jfield(v, "commission"@) matches Some(cv) && self.commission.agrees(cv)
        &&& jfield(v, "total"@) matches Some(ov) && self.total.agrees(ov)
        &&& jfield(v, "provider"@) matches Some(pv) && self.provider.agrees(pv)
        &&& Some(self.comment@) == jstr(v, "comment"@)
        &&& Some(self.currency_rate@) == jnum(v, "currencyRate"@)
        &&& jobj(v, "extras"@) == Some(obj_view(self.extras@))
        &&& Some(self.cheque_ready) == jbool(v, "chequeReady"@)
        &&& Some(self.bank_document_available) == jbool(v, "bankDocumentAvailable"@)
        &&& Some(self.bank_document_ready) == jbool(v, "bankDocumentReady"@)
        &&& Some(self.repeat_payment_enabled) == jbool(v, "repeatPaymentEnabled"@)
        &&& Some(self.favorite_payment_enabled) == jbool(v, "favoritePaymentEnabled"@)
        &&& Some(self.regular_payment_enabled) == jbool(v, "regularPaymentEnabled"@)
    }

    fn from_json(v: &Json) -> (r: Option<Self>) {
        let txn_id = match get_u64(v, "txnId") {
            Some(x) => x,
            None => return None,
        };
        let person_id = match get_u64(v, "personId") {
            Some(x) => x,
            None => return None,
        };
        let date = match get_str(v, "date") {
            Some(x) => x.clone(),
            None => return None,
        };
        let error_code = match get_u64(v, "errorCode") {
            Some(x) => x,
            None => return None,
        };
        let error = match get_str(v, "error") {
            Some(x) => x.clone(),
            None => return None,
        };
        let payment_type = match get_field(v, "type") {
            Some(tv) => match PaymentType::from_json(tv) {
                Some(t) => t,
                None => return None,
            },
            None => return None,
        };
        let status = match get_field(v, "status") {
            Some(sv) => match PaymentStatus::from_json(sv) {
                Some(s) => s,
                None => return None,
            },
            None => return None,
        };
        let status_text = match get_str(v, "statusText") {
            Some(x) => x.clone(),
            None => return None,
        };
        let trm_txn_id = match get_str(v, "trmTxnId") {
            Some(x) => x.clone(),
            None => return None,
        };
        let account = match get_str(v, "account") {
            Some(x) => x.clone(),
            None => return None,
        };
        let sum = match get_field(v, "sum") {
            Some(mv) => match PaymentSumData::from_json(mv) {
                Some(m) => m,
                None => return None,
            },
            None => return None,
        };
        let commission = match get_field(v, "commission") {
            Some(cv) => match PaymentSumData::from_json(cv) {
                Some(c) => c,
                None => return None,
            },
            None => return None,
        };
        let total = match get_field(v, "total") {
            Some(ov) => match PaymentSumData::from_json(ov) {
                Some(o) => o,
                None => return None,
            },
            None => return None,
        };
        let provider = match get_field(v, "provider") {
            Some(pv) => match ProviderData::from_json(pv) {
                Some(p) => p,
                None => return None,
            },
            None => return None,
        };
        let comment = match get_str(v, "comment") {
            Some(x) => x.clone(),
            None => return None,
        };
        let currency_rate = match get_num_raw(v, "currencyRate") {
            Some(x) => x.clone(),
            None => return None,
        };
        let extras = match get_obj(v, "extras") {
            Some(fs) => clone_json_obj(fs),
            None => return None,
        };
        let cheque_ready = match get_bool(v, "chequeReady") {
            Some(x) => x,
            None => return None,
        };
        let bank_document_available = match get_bool(v, "bankDocumentAvailable") {
            Some(x) => x,
            None => return None,
        };
        let bank_document_ready = match get_bool(v, "bankDocumentReady") {
            Some(x) => x,
            None => return None,
        };
        let repeat_payment_enabled = match get_bool(v, "repeatPaymentEnabled") {
            Some(x) => x,
            None => return None,
        };
        let favorite_payment_enabled = match get_bool(v, "favoritePaymentEnabled") {
            Some(x) => x,
            None => return None,
        };
        let regular_payment_enabled = match get_bool(v, "regularPaymentEnabled") {
            Some(x) => x,
            None => return None,
        };
        Some(
            PaymentHistoryEntry {
                txn_id,
                person_id,
                date,
                error_code,
                error,
                payment_type,
                status,
                status_text,
                trm_txn_id,
                account,
                sum,
                commission,
                total,
                provider,
                comment,
                currency_rate,
                extras,
                cheque_ready,
                bank_document_available,
                bank_document_ready,
                repeat_payment_enabled,
                favorite_payment_enabled,
                regular_payment_enabled,
            },
        )
    }
}

/// One page of payment history: its rows and the cursor to the next page;
/// a missing cursor field signals the end of the stream.
#[derive(Clone, Debug, PartialEq)]
pub struct PaymentHistoryData {
    pub data: Vec<PaymentHistoryEntry>,
    pub next_txn_id: Option<u64>,
    pub next_txn_date: Option<String>,
}

impl FromJson for PaymentHistoryData {
    open spec fn shape(v: JsonV) -> bool {
        &&& jarr(v, "data"@) matches Some(es) && crate::json::all_shaped::<PaymentHistoryEntry>(es)
        &&& jopt_u64(v, "nextTxnId"@) is Some
        &&& jopt_str(v, "nextTxnDate"@) is Some
    }

    open spec fn agrees(&self, v: JsonV) -> bool {
        &&& jarr(v, "data"@) matches Some(es) && crate::json::all_agree(self.data@, es)
        &&& Some(self.next_txn_id) == jopt_u64(v, "nextTxnId"@)
        &&& match jopt_str(v, "nextTxnDate"@) {
            Some(Some(s)) => self.next_txn_date matches Some(d) && d@ == s,
            Some(None) => self.next_txn_date is None,
            None => false,
        }
    }

    fn from_json(v: &Json) -> (r: Option<Self>) {
        let data = match get_arr(v, "data") {
            Some(es) => match from_json_arr::<PaymentHistoryEntry>(es) {
                Some(ds) => ds,
                None => return None,
            },
            None => return None,
        };
        let next_txn_id = match get_opt_u64(v, "nextTxnId") {
            Some(x) => x,
            None => return None,
        };
        let next_txn_date = match get_opt_str(v, "nextTxnDate") {
            Some(x) => x,
            None => return None,
        };
        Some(PaymentHistoryData { data, next_txn_id, next_txn_date })
    }
}

#[derive(Clone, Debug, PartialEq)]
pub struct CommissionRange {
    pub bound: String,
    pub rate: String,
    pub min: String,
    pub max: String,
    pub fixed: String,
}

impl FromJson for CommissionRange {
    open spec fn shape(v: JsonV) -> bool {
        &&& jnum(v, "bound"@) is Some
        &&& jnum(v, "rate"@) is Some
        &&& jnum(v, "min"@) is Some
        &&& jnum(v, "max"@) is Some
        &&& jnum(v, "fixed"@) is Some
    }

    open spec fn agrees(&self, v: JsonV) -> bool {
        &&& Some(self.bound@) == jnum(v, "bound"@)
        &&& Some(self.rate@) == jnum(v, "rate"@)
        &&& Some(self.min@) == jnum(v, "min"@)
        &&& Some(self.max@) == jnum(v, "max"@)
        &&& Some(self.fixed@) == jnum(v, "fixed"@)
    }

    fn from_json(v: &Json) -> (r: Option<Self>) {
        let bound = match get_num_raw(v, "bound") {
            Some(x) => x.clone(),
            None => return None,
        };
        let rate = match get_num_raw(v, "rate") {
            Some(x) => x.clone(),
            None => return None,
        };
        let min = match get_num_raw(v, "min") {
            Some(x) => x.clone(),
            None => return None,
        };
        let max = match get_num_raw(v, "max") {
            Some(x) => x.clone(),
            None => return None,
        };
        let fixed = match get_num_raw(v, "fixed") {
            Some(x) => x.clone(),
            None => return None,
        };
        Some(CommissionRange { bound, rate, min, max, fixed })
    }
}

#[derive(Clone, Debug, PartialEq)]
pub struct CommissionLimit {
    pub currency: u16,
    pub min: String,
    pub max: String,
}

impl FromJson for CommissionLimit {
    open spec fn shape(v: JsonV) -> bool {
        &&& ju64(v, "currency"@) matches Some(n) && n <= 65535
        &&& jnum(v, "min"@) is Some
        &&& jnum(v, "max"@) is Some
    }

    open spec fn agrees(&self, v: JsonV) -> bool {
        &&& Some(self.currency as u64) == ju64(v, "currency"@)
        &&& Some(self.min@) == jnum(v, "min"@)
        &&& Some(self.max@) == jnum(v, "max"@)
    }

    fn from_json(v: &Json) -> (r: Option<Self>) {
        let currency_raw = match get_u64(v, "currency") {
            Some(x) => x,
            None => return None,
        };
        if currency_raw > 65535 {
            return None;
        }
        let currency = currency_raw as u16;
        let min = match get_num_raw(v, "min") {
            Some(x) => x.clone(),
            None => return None,
        };
        let max = match get_num_raw(v, "max") {
            Some(x) => x.clone(),
            None => return None,
        };
        Some(CommissionLimit { currency, min, max })
    }
}

#[derive(Clone, Debug, PartialEq)]
pub struct CommissionInfo {
    pub ranges: Vec<CommissionRange>,
    pub limits: Vec<CommissionLimit>,
}

impl FromJson for CommissionInfo {
    open spec fn shape(v: JsonV) -> bool {
        &&& jarr(v, "ranges"@) matches Some(rs) && crate::json::all_shaped::<CommissionRange>(rs)
        &&& jarr(v, "limits"@) matches Some(ls) && crate::json::all_shaped::<CommissionLimit>(ls)
    }

    open spec fn agrees(&self, v: JsonV) -> bool {
        &&& jarr(v, "ranges"@) matches Some(rs) && crate::json::all_agree(self.ranges@, rs)
        &&& jarr(v, "limits"@) matches Some(ls) && crate::json::all_agree(self.limits@, ls)
    }

    fn from_json(v: &Json) -> (r: Option<Self>) {
        let ranges = match get_arr(v, "ranges") {
            Some(es) => match from_json_arr::<CommissionRange>(es) {
                Some(rs) => rs,
                None => return None,
            },
            None => return None,
        };
        let limits = match get_arr(v, "limits") {
            Some(es) => match from_json_arr::<CommissionLimit>(es) {
                Some(ls) => ls,
                None => return None,
            },
            None => return None,
        };
        Some(CommissionInfo { ranges, limits })
    }
}

/// The form document that wraps a provider's commission description.
#[derive(Clone, Debug, PartialEq)]
pub struct CommissionInfoWrapper {
    pub commission: CommissionInfo,
}

impl FromJson for CommissionInfoWrapper {
    open spec fn shape(v: JsonV) -> bool {
        jfield(v, "commission"@) matches Some(cv) && CommissionInfo::shape(cv)
    }

    open spec fn agrees(&self, v: JsonV) -> bool {
        jfield(v, "commission"@) matches Some(cv) && self.commission.agrees(cv)
    }

    fn from_json(v: &Json) -> (r: Option<Self>) {
        let commission = match get_field(v, "commission") {
            Some(cv) => match CommissionInfo::from_json(cv) {
                Some(c) => c,
                None => return None,
            },
            None => return None,
        };
        Some(CommissionInfoWrapper { commission })
    }
}

#[derive(Clone, Debug, PartialEq)]
pub struct CommissionQuoteData {
    pub amount: String,
}

impl FromJson for CommissionQuoteData {
    open spec fn shape(v: JsonV) -> bool {
        jnum(v, "amount"@) is Some
    }

    open spec fn agrees(&self, v: JsonV) -> bool {
        Some(self.amount@) == jnum(v, "amount"@)
    }

    fn from_json(v: &Json) -> (r: Option<Self>) {
        let amount = match get_num_raw(v, "amount") {
            Some(x) => x.clone(),
            None => return None,
        };
        Some(CommissionQuoteData { amount })
    }
}

#[derive(Clone, Debug, PartialEq)]
pub struct CommissionQuote {
    pub qw_commission: CommissionQuoteData,
}

impl FromJson for CommissionQuote {
    open spec fn shape(v: JsonV) -> bool {
        jfield(v, "qwCommission"@) matches Some(qv) && CommissionQuoteData::shape(qv)
    }

    open spec fn agrees(&self, v: JsonV) -> bool {
        jfield(v, "qwCommission"@) matches Some(qv) && self.qw_commission.agrees(qv)
    }

    fn from_json(v: &Json) -> (r: Option<Self>) {
        let qw_commission = match get_field(v, "qwCommission") {
            Some(qv) => match CommissionQuoteData::from_json(qv) {
                Some(q) => q,
                None => return None,
            },
            None => return None,
        };
        Some(CommissionQuote { qw_commission })
    }
}

#[derive(Clone, Debug, PartialEq)]
pub struct TransferState {
    pub code: String,
}

impl FromJson for TransferState {
    open spec fn shape(v: JsonV) -> bool {
        jstr(v, "code"@) is Some
    }

    open spec fn agrees(&self, v: JsonV) -> bool {
        Some(self.code@) == jstr(v, "code"@)
    }

    fn from_json(v: &Json) -> (r: Option<Self>) {
        let code = match get_str(v, "code") {
            Some(x) => x.clone(),
            None => return None,
        };
        Some(TransferState { code })
    }
}

#[derive(Clone, Debug, PartialEq)]
pub struct TransferTransactionData {
    pub id: String,
    pub state: TransferState,
}

impl FromJson for TransferTransactionData {
    open spec fn shape(v: JsonV) -> bool {
        &&& jstr(v, "id"@) is Some
        &&& jfield(v, "state"@) matches Some(sv) && TransferState::shape(sv)
    }

    open spec fn agrees(&self, v: JsonV) -> bool {
        &&& Some(self.id@) == jstr(v, "id"@)
        &&& jfield(v, "state"@) matches Some(sv) && self.state.agrees(sv)
    }

    fn from_json(v: &Json) -> (r: Option<Self>) {
        let id = match get_str(v, "id") {
            Some(x) => x.clone(),
            None => return None,
        };
        let state = match get_field(v, "state") {
            Some(sv) => match TransferState::from_json(sv) {
                Some(s) => s,
                None => return None,
            },
            None => return None,
        };
        Some(TransferTransactionData { id, state })
    }
}

/// What a successful transfer returns: the transaction's id and state code.
#[derive(Clone, Debug, PartialEq)]
pub struct TransferData {
    pub transaction: TransferTransactionData,
}

impl FromJson for TransferData {
    open spec fn shape(v: JsonV) -> bool {
        jfield(v, "transaction"@) matches Some(tv) && TransferTransactionData::shape(tv)
    }

    open spec fn agrees(&self, v: JsonV) -> bool {
        jfield(v, "transaction"@) matches Some(tv) && self.transaction.agrees(tv)
    }

    fn from_json(v: &Json) -> (r: Option<Self>) {
        let transaction = match get_field(v, "transaction") {
            Some(tv) => match TransferTransactionData::from_json(tv) {
                Some(t) => t,
                None => return None,
            },
            None => return None,
        };
        Some(TransferData { transaction })
    }
}

} // verus!
