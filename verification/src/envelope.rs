//! The uniform response envelope of the gateway.
//!
//! Every exchange with the remote service ends in an [`Envelope`]: the
//! transport hands over either the raw response text or a failure message,
//! and [`classify`] folds both into one shape that callers can branch on
//! by `code` alone.  `"0"` means success; the synthesized sentinels are
//! `"888"` for a payload without a usable `code` field and `"999"` for a
//! transport or decode failure.
//!
//! The payloads themselves are `serde_json::Value`s, opaque to the
//! verifier.  What each serde_json call returns is a function of its
//! argument alone, so each gets a name (an uninterpreted spec function)
//! that its wrapper's contract applies; everything above the wrappers is
//! verified against those names.

use vstd::prelude::*;
use vstd::string::StringExecFns;
use serde_json::Value;

verus! {

#[verifier::external_type_specification]
#[verifier::external_body]
pub struct ExValue(Value);

/// What `serde_json::from_str::<Value>` yields on a given text: the
/// parsed tree, or nothing when the text is not JSON.
pub uninterp spec fn parsed_json(s: Seq<char>) -> Option<Value>;

/// What `serde_json::Value::get` yields for a string key: the entry the
/// key holds, or nothing when the value is no object or lacks the key.
pub uninterp spec fn spec_field(v: Value, key: Seq<char>) -> Option<Value>;

/// What `serde_json::Value::as_u64` yields: the number the value holds,
/// or nothing when it is no unsigned integer.
pub uninterp spec fn spec_u64(v: Value) -> Option<u64>;

/// What `serde_json::Value::as_bool` yields: the boolean the value
/// holds, or nothing when it is no boolean.
pub uninterp spec fn spec_bool(v: Value) -> Option<bool>;

/// What `serde_json::Value::as_str` yields: the string the value holds,
/// or nothing when it is no string.
pub uninterp spec fn spec_str(v: Value) -> Option<Seq<char>>;

/// What `serde_json::Value::as_array` yields: the elements the value
/// holds, or nothing when it is no array.
pub uninterp spec fn spec_array(v: Value) -> Option<Seq<Value>>;

/// Relies on `serde_json::from_str::<Value>`: parses text as one JSON
/// value; the error carries serde_json's own message.
#[verifier::external_body]
fn parse_json(text: &str) -> (r: Result<Value, String>)
    ensures
        (r matches Ok(v) ==> parsed_json(text@) == Some(v)),
        (r is Err <==> parsed_json(text@) is None),
{
    serde_json::from_str(text).map_err(|e| e.to_string())
}

/// Relies on `serde_json::Value::get`: looks a key up in a JSON object,
/// `None` when the key is absent or the value is no object.
#[verifier::external_body]
pub(crate) fn json_get<'a>(v: &'a Value, key: &str) -> (r: Option<&'a Value>)
    ensures
        (r matches Some(f) ==> spec_field(*v, key@) == Some(*f)),
        (r is None <==> spec_field(*v, key@) is None),
{
    v.get(key)
}

/// Relies on `serde_json::Value::as_u64`: the number held by the value,
/// `None` when it is no unsigned integer.
#[verifier::external_body]
pub(crate) fn json_as_u64(v: &Value) -> (r: Option<u64>)
    ensures
        r == spec_u64(*v),
{
    v.as_u64()
}

/// Relies on `serde_json::Value::as_bool`: the boolean held by the value,
/// `None` when it is no boolean.
#[verifier::external_body]
pub(crate) fn json_as_bool(v: &Value) -> (r: Option<bool>)
    ensures
        r == spec_bool(*v),
{
    v.as_bool()
}

/// Relies on `serde_json::Value::as_str`: the string held by the value,
/// `None` when it is no string.
#[verifier::external_body]
pub(crate) fn json_as_string(v: &Value) -> (r: Option<String>)
    ensures
        (r matches Some(s) ==> spec_str(*v) == Some(s@)),
        (r is None <==> spec_str(*v) is None),
{
    v.as_str().map(|s| s.to_owned())
}

/// Relies on `serde_json::Value::as_array`: the elements held by the
/// value, `None` when it is no array.
#[verifier::external_body]
pub(crate) fn json_as_array(v: &Value) -> (r: Option<Vec<Value>>)
    ensures
        (r matches Some(a) ==> spec_array(*v) == Some(a@)),
        (r is None <==> spec_array(*v) is None),
{
    v.as_array().cloned()
}

/// The code the service answers on success.
pub open spec fn code_ok() -> Seq<char> {
    "0"@
}

/// The sentinel for a payload that decoded but offers no `code` string.
pub open spec fn code_shape() -> Seq<char> {
    "888"@
}

/// The sentinel for a transport or decode failure.
pub open spec fn code_transport() -> Seq<char> {
    "999"@
}

/// The `code` string a parsed payload carries, or nothing when the
/// field is absent or no string.
pub open spec fn payload_code(v: Value) -> Option<Seq<char>> {
    match spec_field(v, "code"@) {
        Some(c) => spec_str(c),
        None => None,
    }
}

/// What one POST exchange came to before classification: either the
/// response text, or the transport's failure message.
pub enum TransportOutcome {
    Failure(String),
    Payload(String),
}

/// The uniform response envelope: a `code` is always present, the parsed
/// payload only when the response text decoded as JSON.
pub struct Envelope {
    pub code: String,
    pub message: String,
    pub body: Option<Value>,
}

impl Envelope {
    /// An envelope counts as success exactly when its code is `"0"`.
    pub open spec fn is_success(self) -> bool {
        self.code@ == code_ok()
    }

    /// Executable success test, the one predicate every caller branches on.
    pub fn succeeded(&self) -> (b: bool)
        ensures
            b == self.is_success(),
    {
        str_eq(&self.code, "0")
    }
}

/// Compares a string against a literal by view.
pub fn str_eq(a: &String, lit: &str) -> (r: bool)
    ensures
        r == (a@ == lit@),
{
    let other = String::from_str(lit);
    *a == other
}

/// The envelope of a transport or decode failure.
fn transport_envelope(m: String) -> (e: Envelope)
    ensures
        e.code@ == code_transport(),
        e.message@ == m@,
        e.body is None,
        !e.is_success(),
{
    proof {
        reveal_strlit("999");
        reveal_strlit("0");
    }
    Envelope { code: String::from_str("999"), message: m, body: None }
}

/// The envelope of a payload that offers no usable `code` string.
fn shape_envelope(v: Value) -> (e: Envelope)
    ensures
        e.code@ == code_shape(),
        e.body == Some(v),
        !e.is_success(),
{
    proof {
        reveal_strlit("888");
        reveal_strlit("0");
    }
    Envelope { code: String::from_str("888"), message: String::new(), body: Some(v) }
}

/// Folds every outcome of one exchange into an envelope.
///
/// A transport failure keeps its message under code `"999"`; text that is
/// no JSON becomes `"999"` as well; JSON without a `code` string becomes
/// `"888"`; otherwise the payload's own code is returned verbatim along
/// with the payload.  No outcome is left unclassified, so callers never
/// need a failure path of their own.
pub fn classify(outcome: TransportOutcome) -> (e: Envelope)
    ensures
        (outcome matches TransportOutcome::Failure(m) ==> {
            &&& e.code@ == code_transport()
            &&& e.message@ == m@
            &&& e.body is None
        }),
        (outcome matches TransportOutcome::Payload(t) ==> {
            &&& e.body == parsed_json(t@)
            &&& (parsed_json(t@) is None ==> e.code@ == code_transport())
            &&& (parsed_json(t@) matches Some(v) ==> match payload_code(v) {
                Some(c) => e.code@ == c,
                None => e.code@ == code_shape(),
            })
        }),
        e.body is None ==> !e.is_success(),
        e.is_success() ==> e.body is Some,
{
    match outcome {
        TransportOutcome::Failure(m) => transport_envelope(m),
        TransportOutcome::Payload(text) => match parse_json(text.as_str()) {
            Err(m) => transport_envelope(m),
            Ok(v) => {
                let code_opt = match json_get(&v, "code") {
                    Some(c) => json_as_string(c),
                    None => None,
                };
                match code_opt {
                    Some(c) => Envelope { code: c, message: String::new(), body: Some(v) },
                    None => shape_envelope(v),
                }
            },
        },
    }
}

/// The plain values a task handler reads out of an envelope; numeric
/// fields fall back to zero and flags to `false` when the payload does
/// not carry them.
#[derive(Clone, Debug)]
pub struct Reply {
    pub success: bool,
    pub code: String,
    pub amount: u64,
    pub add_energy: u64,
    pub total_energy: u64,
    pub total_water_task_energy: u64,
    pub water_gram: u64,
    pub add_water: u64,
    pub can_pop: bool,
    pub title: String,
}

/// A payload field, reached through the optional body.
pub open spec fn opt_field(body: Option<Value>, key: Seq<char>) -> Option<Value> {
    match body {
        Some(v) => spec_field(v, key),
        None => None,
    }
}

/// A numeric payload field with the zero fallback.
pub open spec fn field_u64_spec(body: Option<Value>, key: Seq<char>) -> u64 {
    match opt_field(body, key) {
        Some(f) => match spec_u64(f) {
            Some(n) => n,
            None => 0,
        },
        None => 0,
    }
}

/// A string payload field with the empty fallback.
pub open spec fn field_str_spec(body: Option<Value>, key: Seq<char>) -> Seq<char> {
    match opt_field(body, key) {
        Some(f) => match spec_str(f) {
            Some(s) => s,
            None => Seq::<char>::empty(),
        },
        None => Seq::<char>::empty(),
    }
}

/// The opportunistic pop-reward flag, surfaced under
/// `todayGotWaterGoalTask.canPop` in unrelated payloads; absent means no.
pub open spec fn pop_flag_spec(body: Option<Value>) -> bool {
    match opt_field(body, "todayGotWaterGoalTask"@) {
        Some(t) => match spec_field(t, "canPop"@) {
            Some(f) => match spec_bool(f) {
                Some(b) => b,
                None => false,
            },
            None => false,
        },
        None => false,
    }
}

fn field_u64_or_zero(body: &Option<Value>, key: &str) -> (r: u64)
    ensures
        r == field_u64_spec(*body, key@),
{
    match body {
        Some(v) => match json_get(v, key) {
            Some(f) => match json_as_u64(f) {
                Some(n) => n,
                None => 0,
            },
            None => 0,
        },
        None => 0,
    }
}

fn field_string_or_empty(body: &Option<Value>, key: &str) -> (r: String)
    ensures
        r@ == field_str_spec(*body, key@),
{
    match body {
        Some(v) => match json_get(v, key) {
            Some(f) => match json_as_string(f) {
                Some(s) => s,
                None => String::new(),
            },
            None => String::new(),
        },
        None => String::new(),
    }
}

fn pop_flag(body: &Option<Value>) -> (r: bool)
    ensures
        r == pop_flag_spec(*body),
{
    match body {
        Some(v) => match json_get(v, "todayGotWaterGoalTask") {
            Some(t) => match json_get(t, "canPop") {
                Some(f) => match json_as_bool(f) {
                    Some(b) => b,
                    None => false,
                },
                None => false,
            },
            None => false,
        },
        None => false,
    }
}

/// Reads the handler-facing plain values out of an envelope: each field
/// is the named payload field with its documented fallback.
pub fn read_reply(e: &Envelope) -> (r: Reply)
    ensures
        r.success == e.is_success(),
        r.code@ == e.code@,
        r.amount == field_u64_spec(e.body, "amount"@),
        r.add_energy == field_u64_spec(e.body, "addEnergy"@),
        r.total_energy == field_u64_spec(e.body, "totalEnergy"@),
        r.total_water_task_energy == field_u64_spec(e.body, "totalWaterTaskEnergy"@),
        r.water_gram == field_u64_spec(e.body, "waterGram"@),
        r.add_water == field_u64_spec(e.body, "addWater"@),
        r.can_pop == pop_flag_spec(e.body),
        r.title@ == field_str_spec(e.body, "title"@),
{
    let success = e.succeeded();
    Reply {
        success,
        code: e.code.clone(),
        amount: field_u64_or_zero(&e.body, "amount"),
        add_energy: field_u64_or_zero(&e.body, "addEnergy"),
        total_energy: field_u64_or_zero(&e.body, "totalEnergy"),
        total_water_task_energy: field_u64_or_zero(&e.body, "totalWaterTaskEnergy"),
        water_gram: field_u64_or_zero(&e.body, "waterGram"),
        add_water: field_u64_or_zero(&e.body, "addWater"),
        can_pop: pop_flag(&e.body),
        title: field_string_or_empty(&e.body, "title"),
    }
}

} // verus!
