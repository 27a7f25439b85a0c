//! Field-level validation errors, the rules that produce them (backed by
//! the `validator` crate's checks), and their rendering into the
//! `{field: [messages]}` map of a `ServiceError`.

use vstd::prelude::*;
use vstd::string::*;

use crate::codes;
use crate::error::{FieldMessages, FieldMessagesV, ServiceError, fields_view};
use crate::text::{decimal, render_i64, str_eq};

verus! {

/// A parameter that a rule recorded with its failure.
#[derive(Debug, Clone, PartialEq, Eq)]
pub enum ParamValue {
    Number(i64),
    Text(String),
}

/// Spec-level form of `ParamValue`.
pub enum ParamV {
    Number(int),
    Text(Seq<char>),
}

impl View for ParamValue {
    type V = ParamV;

    open spec fn view(&self) -> ParamV {
        match self {
            ParamValue::Number(n) => ParamV::Number(*n as int),
            ParamValue::Text(s) => ParamV::Text(s@),
        }
    }
}

/// A parameter rendered as text: numbers in decimal, text as it is.
pub open spec fn render_param(p: ParamV) -> Seq<char> {
    match p {
        ParamV::Number(n) => decimal(n),
        ParamV::Text(s) => s,
    }
}

/// One failed rule on one field: the rule's code, an optional message that
/// overrides the generic one, and the rule's parameters.
#[derive(Debug, Clone, PartialEq, Eq)]
pub struct FieldError {
    pub code: String,
    pub message: Option<String>,
    pub params: Vec<(String, ParamValue)>,
}

/// Spec-level form of `FieldError`.
pub struct FieldErrorV {
    pub code: Seq<char>,
    pub message: Option<Seq<char>>,
    pub params: Seq<(Seq<char>, ParamV)>,
}

pub open spec fn opt_str_view(o: Option<String>) -> Option<Seq<char>> {
    match o {
        Some(s) => Some(s@),
        None => None,
    }
}

impl View for FieldError {
    type V = FieldErrorV;

    open spec fn view(&self) -> FieldErrorV {
        FieldErrorV {
            code: self.code@,
            message: opt_str_view(self.message),
            params: self.params@.map_values(|p: (String, ParamValue)| (p.0@, p.1@)),
        }
    }
}

impl FieldError {
    /// A failure with this code, no message and no parameters.
    pub fn new(code: &str) -> (e: FieldError)
        ensures
            e@ == (FieldErrorV { code: code@, message: None, params: seq![] }),
    {
        let e = FieldError { code: String::from_str(code), message: None, params: Vec::new() };
        assert(e@.params =~= seq![]);
        e
    }

    /// Records a parameter of the failure.
    pub fn add_param(&mut self, name: &str, value: ParamValue)
        ensures
            final(self)@ == (FieldErrorV {
                params: old(self)@.params.push((name@, value@)),
                ..old(self)@
            }),
    {
        let ghost before = self.params@;
        self.params.push((String::from_str(name), value));
        assert(self.params@.map_values(|p: (String, ParamValue)| (p.0@, p.1@)) =~= before.map_values(
            |p: (String, ParamValue)| (p.0@, p.1@),
        ).push((name@, value@)));
    }
}

/// The failures of one field.
#[derive(Debug, Clone, PartialEq, Eq)]
pub struct FieldErrorList {
    pub field: String,
    pub errors: Vec<FieldError>,
}

/// Spec-level form of `FieldErrorList`.
pub struct FieldErrorListV {
    pub field: Seq<char>,
    pub errors: Seq<FieldErrorV>,
}

impl View for FieldErrorList {
    type V = FieldErrorListV;

    open spec fn view(&self) -> FieldErrorListV {
        FieldErrorListV { field: self.field@, errors: self.errors@.map_values(|e: FieldError| e@) }
    }
}

/// The failing fields of a request, each with its failures.
#[derive(Debug, Clone, PartialEq, Eq)]
pub struct FieldErrorMap {
    pub entries: Vec<FieldErrorList>,
}

impl View for FieldErrorMap {
    type V = Seq<FieldErrorListV>;

    open spec fn view(&self) -> Seq<FieldErrorListV> {
        self.entries@.map_values(|l: FieldErrorList| l@)
    }
}

/// Whether some entry of the map is about this field.
pub open spec fn has_field(m: Seq<FieldErrorListV>, field: Seq<char>) -> bool {
    exists|i: int| 0 <= i < m.len() && (#[trigger] m[i]).field == field
}

impl FieldErrorMap {
    /// Whether the field has failures.
    pub fn contains_key(&self, field: &str) -> (b: bool)
        ensures
            b == has_field(self@, field@),
    {
        let n = self.entries.len();
        let mut i: usize = 0;
        while i < n
            invariant
                n == self.entries@.len(),
                0 <= i <= n,
                forall|k: int| 0 <= k < i ==> (#[trigger] self@[k]).field != field@,
            decreases n - i,
        {
            if str_eq(self.entries[i].field.as_str(), field) {
                assert(self@[i as int].field == field@);
                return true;
            }
            i = i + 1;
        }
        false
    }

    /// The number of failing fields.
    pub fn len(&self) -> (n: usize)
        ensures
            n == self@.len(),
    {
        self.entries.len()
    }
}

/// All the failures of one request, grouped by field.
#[derive(Debug, Clone, PartialEq, Eq)]
pub struct ValidationErrors {
    pub map: FieldErrorMap,
}

impl View for ValidationErrors {
    type V = Seq<FieldErrorListV>;

    open spec fn view(&self) -> Seq<FieldErrorListV> {
        self.map@
    }
}

impl ValidationErrors {
    /// The failures, by field.
    pub fn field_errors(&self) -> (m: &FieldErrorMap)
        ensures
            m@ == self@,
    {
        &self.map
    }
}

/// Collects failures field by field while a request is checked.
pub struct ErrorCollector {
    pub entries: Vec<FieldErrorList>,
}

impl View for ErrorCollector {
    type V = Seq<FieldErrorListV>;

    open spec fn view(&self) -> Seq<FieldErrorListV> {
        self.entries@.map_values(|l: FieldErrorList| l@)
    }
}

/// The entry list that a single failure of one field makes.
pub open spec fn single_entry(field: Seq<char>, err: FieldErrorV) -> Seq<FieldErrorListV> {
    seq![FieldErrorListV { field, errors: seq![err] }]
}

/// `single_entry` when the check failed, nothing when it passed.
pub open spec fn entry_if(failed: bool, field: Seq<char>, err: FieldErrorV) -> Seq<FieldErrorListV> {
    if failed {
        single_entry(field, err)
    } else {
        seq![]
    }
}

/// `Ok` when nothing failed, the failures otherwise.
pub open spec fn result_matches(r: Result<(), ValidationErrors>, expected: Seq<FieldErrorListV>) -> bool {
    match r {
        Ok(()) => expected.len() == 0,
        Err(e) => expected.len() > 0 && e@ == expected,
    }
}

impl ErrorCollector {
    pub fn new() -> (c: ErrorCollector)
        ensures
            c@ == Seq::<FieldErrorListV>::empty(),
    {
        let c = ErrorCollector { entries: Vec::new() };
        assert(c@ =~= Seq::<FieldErrorListV>::empty());
        c
    }

    /// Records the single failure of a field that no earlier check failed.
    pub fn add(&mut self, field: &str, err: FieldError)
        ensures
            final(self)@ == old(self)@ + single_entry(field@, err@),
    {
        let ghost before = self.entries@;
        let mut errors: Vec<FieldError> = Vec::new();
        let ghost err_view = err@;
        errors.push(err);
        let list = FieldErrorList { field: String::from_str(field), errors };
        assert(list@.errors =~= seq![err_view]);
        self.entries.push(list);
        assert(self.entries@.map_values(|l: FieldErrorList| l@) =~= before.map_values(
            |l: FieldErrorList| l@,
        ) + single_entry(field@, err_view));
    }

    /// `Ok` when nothing was recorded, the recorded failures otherwise.
    pub fn finish(self) -> (r: Result<(), ValidationErrors>)
        ensures
            result_matches(r, self@),
    {
        if self.entries.len() == 0 {
            Ok(())
        } else {
            Err(ValidationErrors { map: FieldErrorMap { entries: self.entries } })
        }
    }
}

// ---------------------------------------------------------------------------
// The checks of the `validator` crate.
// ---------------------------------------------------------------------------

/// What `validator::ValidateEmail::validate_email` answers for a text (the
/// HTML5 e-mail address rule, with length limits and IDN domains).
pub uninterp spec fn email_is_valid(s: Seq<char>) -> bool;

/// Calls `validator::ValidateEmail::validate_email` on a string. The answer is
/// named by `email_is_valid`; the contract also states what the source shows
/// outright: a text without `@` (the empty text among them) is refused.
#[verifier::external_body]
pub(crate) fn validate_email(s: &str) -> (b: bool)
    ensures
        b == email_is_valid(s@),
        !s@.contains('@') ==> !b,
{
    validator::ValidateEmail::validate_email(&s)
}

/// The outcome of `validator::ValidateLength::validate_length` on a string
/// (whose length is its number of characters) with no `equal` bound.
pub open spec fn length_ok(s: Seq<char>, min: Option<int>, max: Option<int>) -> bool {
    &&& (min matches Some(m) ==> s.len() >= m)
    &&& (max matches Some(m) ==> s.len() <= m)
}

/// Calls `validator::ValidateLength::validate_length` on a string with the
/// given bounds and no `equal`: the character count lies within the bounds.
#[verifier::external_body]
pub(crate) fn validate_length(s: &str, min: Option<u64>, max: Option<u64>) -> (b: bool)
    ensures
        b == length_ok(
            s@,
            match min { Some(m) => Some(m as int), None => None },
            match max { Some(m) => Some(m as int), None => None },
        ),
{
    validator::ValidateLength::<u64>::validate_length(&s, min, max, None)
}

/// The outcome of `validator::ValidateRange::validate_range` with inclusive
/// bounds only.
pub open spec fn range_ok(v: int, min: Option<int>, max: Option<int>) -> bool {
    &&& (min matches Some(m) ==> v >= m)
    &&& (max matches Some(m) ==> v <= m)
}

/// Calls `validator::ValidateRange::validate_range` on an `i64` with inclusive
/// bounds and no exclusive ones: the value lies within the bounds.
#[verifier::external_body]
pub(crate) fn validate_range(v: i64, min: Option<i64>, max: Option<i64>) -> (b: bool)
    ensures
        b == range_ok(
            v as int,
            match min { Some(m) => Some(m as int), None => None },
            match max { Some(m) => Some(m as int), None => None },
        ),
{
    validator::ValidateRange::<i64>::validate_range(&v, min, max, None, None)
}

// ---------------------------------------------------------------------------
// The failures that each rule reports.
// ---------------------------------------------------------------------------

pub open spec fn opt_number_params(name: Seq<char>, v: Option<int>) -> Seq<(Seq<char>, ParamV)> {
    match v {
        Some(n) => seq![(name, ParamV::Number(n))],
        None => seq![],
    }
}

/// The failure of a `length` rule: code `length`, the rule's message, its
/// bounds and the offending value.
pub open spec fn length_error_spec(message: Seq<char>, min: Option<int>, max: Option<int>, value: Seq<char>) -> FieldErrorV {
    FieldErrorV {
        code: "length"@,
        message: Some(message),
        params: opt_number_params("min"@, min) + opt_number_params("max"@, max) + seq![
            ("value"@, ParamV::Text(value)),
        ],
    }
}

/// The failure of an `email` rule.
pub open spec fn email_error_spec(message: Seq<char>, value: Seq<char>) -> FieldErrorV {
    FieldErrorV {
        code: "email"@,
        message: Some(message),
        params: seq![("value"@, ParamV::Text(value))],
    }
}

/// The failure of a `range` rule.
pub open spec fn range_error_spec(message: Seq<char>, min: Option<int>, max: Option<int>, value: int) -> FieldErrorV {
    FieldErrorV {
        code: "range"@,
        message: Some(message),
        params: opt_number_params("min"@, min) + opt_number_params("max"@, max) + seq![
            ("value"@, ParamV::Number(value)),
        ],
    }
}

fn add_opt_number(e: &mut FieldError, name: &str, v: Option<i64>)
    ensures
        final(e)@ == (FieldErrorV {
            params: old(e)@.params + opt_number_params(
                name@,
                match v { Some(n) => Some(n as int), None => None },
            ),
            ..old(e)@
        }),
{
    match v {
        Some(n) => {
            e.add_param(name, ParamValue::Number(n));
            assert(old(e)@.params.push((name@, ParamV::Number(n as int))) =~= old(e)@.params
                + seq![(name@, ParamV::Number(n as int))]);
        },
        None => {
            assert(old(e)@.params + seq![] =~= old(e)@.params);
        },
    }
}

/// The failure a `length` rule reports.
pub fn length_error(message: &str, min: Option<i64>, max: Option<i64>, value: &str) -> (e: FieldError)
    ensures
        e@ == length_error_spec(
            message@,
            match min { Some(m) => Some(m as int), None => None },
            match max { Some(m) => Some(m as int), None => None },
            value@,
        ),
{
    let mut e = FieldError::new("length");
    e.message = Some(String::from_str(message));
    add_opt_number(&mut e, "min", min);
    add_opt_number(&mut e, "max", max);
    e.add_param("value", ParamValue::Text(String::from_str(value)));
    assert(e@.params =~= opt_number_params("min"@, match min { Some(m) => Some(m as int), None => None })
        + opt_number_params("max"@, match max { Some(m) => Some(m as int), None => None }) + seq![
        ("value"@, ParamV::Text(value@)),
    ]);
    e
}

/// The failure an `email` rule reports.
pub fn email_error(message: &str, value: &str) -> (e: FieldError)
    ensures
        e@ == email_error_spec(message@, value@),
{
    let mut e = FieldError::new("email");
    e.message = Some(String::from_str(message));
    e.add_param("value", ParamValue::Text(String::from_str(value)));
    assert(e@.params =~= seq![("value"@, ParamV::Text(value@))]);
    e
}

/// The failure a `range` rule reports.
pub fn range_error(message: &str, min: Option<i64>, max: Option<i64>, value: i64) -> (e: FieldError)
    ensures
        e@ == range_error_spec(
            message@,
            match min { Some(m) => Some(m as int), None => None },
            match max { Some(m) => Some(m as int), None => None },
            value as int,
        ),
{
    let mut e = FieldError::new("range");
    e.message = Some(String::from_str(message));
    add_opt_number(&mut e, "min", min);
    add_opt_number(&mut e, "max", max);
    e.add_param("value", ParamValue::Number(value));
    assert(e@.params =~= opt_number_params("min"@, match min { Some(m) => Some(m as int), None => None })
        + opt_number_params("max"@, match max { Some(m) => Some(m as int), None => None }) + seq![
        ("value"@, ParamV::Number(value as int)),
    ]);
    e
}


// ---------------------------------------------------------------------------
// Rendering failures into messages.
// ---------------------------------------------------------------------------

/// The rendered value of the parameter last recorded under `key` among the
/// first `j` parameters.
pub open spec fn param_lookup_before(params: Seq<(Seq<char>, ParamV)>, key: Seq<char>, j: int) -> Option<Seq<char>>
    decreases j,
{
    if 0 < j <= params.len() {
        if params[j - 1].0 == key {
            Some(render_param(params[j - 1].1))
        } else {
            param_lookup_before(params, key, j - 1)
        }
    } else {
        None
    }
}

/// The rendered value recorded under `key` (the last one, as a map insert
/// keeps it), if any.
pub open spec fn param_lookup(params: Seq<(Seq<char>, ParamV)>, key: Seq<char>) -> Option<Seq<char>> {
    param_lookup_before(params, key, params.len() as int)
}

/// The message of a `length` failure that carries no message of its own.
pub open spec fn length_message(params: Seq<(Seq<char>, ParamV)>) -> Seq<char> {
    match param_lookup(params, "equal"@) {
        Some(eq) => "Must be exactly "@ + eq + " characters"@,
        None => match (param_lookup(params, "min"@), param_lookup(params, "max"@)) {
            (Some(min), Some(max)) => "Must be between "@ + min + " and "@ + max + " characters"@,
            (Some(min), None) => "Must be at least "@ + min + " characters"@,
            (None, Some(max)) => "Must be at most "@ + max + " characters"@,
            (None, None) => "Invalid length"@,
        },
    }
}

/// The message of a `range` failure that carries no message of its own.
pub open spec fn range_message(params: Seq<(Seq<char>, ParamV)>) -> Seq<char> {
    match (param_lookup(params, "min"@), param_lookup(params, "max"@)) {
        (Some(min), Some(max)) => "Must be between "@ + min + " and "@ + max,
        (Some(min), None) => "Must be at least "@ + min,
        (None, Some(max)) => "Must be at most "@ + max,
        (None, None) => "Out of range"@,
    }
}

/// The message of a rule that names a `pattern` or `other` parameter.
pub open spec fn quoted_message(
    param: Option<Seq<char>>,
    prefix: Seq<char>,
    fallback: Seq<char>,
) -> Seq<char> {
    match param {
        Some(p) => prefix + p + "`"@,
        None => fallback,
    }
}

/// The generic message of a failure, chosen by its code and parameters.
pub open spec fn generic_message(code: Seq<char>, params: Seq<(Seq<char>, ParamV)>) -> Seq<char> {
    if code == "required"@ {
        "This field is required"@
    } else if code == "length"@ {
        length_message(params)
    } else if code == "range"@ {
        range_message(params)
    } else if code == "email"@ {
        "Invalid email format"@
    } else if code == "url"@ {
        "Invalid URL"@
    } else if code == "regex"@ {
        "Invalid format"@
    } else if code == "non_control_character"@ {
        "Must not contain control characters"@
    } else if code == "credit_card"@ {
        "Invalid credit card number"@
    } else if code == "phone"@ {
        "Invalid phone number"@
    } else if code == "contains"@ {
        quoted_message(param_lookup(params, "pattern"@), "Must contain `"@, "Missing required content"@)
    } else if code == "does_not_contain"@ {
        quoted_message(
            param_lookup(params, "pattern"@),
            "Must not contain `"@,
            "Contains forbidden content"@,
        )
    } else if code == "must_match"@ {
        quoted_message(param_lookup(params, "other"@), "Must match `"@, "Fields do not match"@)
    } else {
        code
    }
}

/// The message shown for a failure: its own message when it has one, the
/// generic message of its rule otherwise.
pub open spec fn message_for_spec(e: FieldErrorV) -> Seq<char> {
    match e.message {
        Some(m) => m,
        None => generic_message(e.code, e.params),
    }
}

fn render_param_value(p: &ParamValue) -> (r: String)
    ensures
        r@ == render_param(p@),
{
    match p {
        ParamValue::Number(n) => render_i64(*n),
        ParamValue::Text(s) => s.clone(),
    }
}

/// The rendered value recorded under `key`.
fn param(err: &FieldError, key: &str) -> (r: Option<String>)
    ensures
        opt_str_view(r) == param_lookup(err@.params, key@),
{
    let n = err.params.len();
    let mut j: usize = n;
    while j > 0
        invariant
            n == err.params@.len(),
            0 <= j <= n,
            param_lookup(err@.params, key@) == param_lookup_before(err@.params, key@, j as int),
        decreases j,
    {
        let entry = &err.params[j - 1];
        assert(err@.params[j - 1] == (entry.0@, entry.1@));
        if str_eq(entry.0.as_str(), key) {
            return Some(render_param_value(&entry.1));
        }
        j = j - 1;
    }
    None
}

fn cat3(a: &str, b: &str, c: &str) -> (r: String)
    ensures
        r@ == a@ + b@ + c@,
{
    let mut s = String::from_str(a);
    s.append(b);
    s.append(c);
    s
}

fn cat5(a: &str, b: &str, c: &str, d: &str, e: &str) -> (r: String)
    ensures
        r@ == a@ + b@ + c@ + d@ + e@,
{
    let mut s = String::from_str(a);
    s.append(b);
    s.append(c);
    s.append(d);
    s.append(e);
    s
}

fn length_message_exec(err: &FieldError) -> (r: String)
    ensures
        r@ == length_message(err@.params),
{
    if let Some(eq) = param(err, "equal") {
        return cat3("Must be exactly ", eq.as_str(), " characters");
    }
    let min = param(err, "min");
    let max = param(err, "max");
    match (min, max) {
        (Some(min), Some(max)) => cat5("Must be between ", min.as_str(), " and ", max.as_str(), " characters"),
        (Some(min), None) => cat3("Must be at least ", min.as_str(), " characters"),
        (None, Some(max)) => cat3("Must be at most ", max.as_str(), " characters"),
        (None, None) => String::from_str("Invalid length"),
    }
}

fn range_message_exec(err: &FieldError) -> (r: String)
    ensures
        r@ == range_message(err@.params),
{
    let min = param(err, "min");
    let max = param(err, "max");
    match (min, max) {
        (Some(min), Some(max)) => cat3("Must be between ", min.as_str(), " and ").concat(max.as_str()),
        (Some(min), None) => String::from_str("Must be at least ").concat(min.as_str()),
        (None, Some(max)) => String::from_str("Must be at most ").concat(max.as_str()),
        (None, None) => String::from_str("Out of range"),
    }
}

fn quoted_message_exec(err: &FieldError, key: &str, prefix: &str, fallback: &str) -> (r: String)
    ensures
        r@ == quoted_message(param_lookup(err@.params, key@), prefix@, fallback@),
{
    match param(err, key) {
        Some(p) => cat3(prefix, p.as_str(), "`"),
        None => String::from_str(fallback),
    }
}

/// The message shown to clients for one failure.
pub fn message_for(err: &FieldError) -> (r: String)
    ensures
        r@ == message_for_spec(err@),
{
    if let Some(m) = &err.message {
        return m.clone();
    }
    let code = err.code.as_str();
    if str_eq(code, "required") {
        String::from_str("This field is required")
    } else if str_eq(code, "length") {
        length_message_exec(err)
    } else if str_eq(code, "range") {
        range_message_exec(err)
    } else if str_eq(code, "email") {
        String::from_str("Invalid email format")
    } else if str_eq(code, "url") {
        String::from_str("Invalid URL")
    } else if str_eq(code, "regex") {
        String::from_str("Invalid format")
    } else if str_eq(code, "non_control_character") {
        String::from_str("Must not contain control characters")
    } else if str_eq(code, "credit_card") {
        String::from_str("Invalid credit card number")
    } else if str_eq(code, "phone") {
        String::from_str("Invalid phone number")
    } else if str_eq(code, "contains") {
        quoted_message_exec(err, "pattern", "Must contain `", "Missing required content")
    } else if str_eq(code, "does_not_contain") {
        quoted_message_exec(err, "pattern", "Must not contain `", "Contains forbidden content")
    } else if str_eq(code, "must_match") {
        quoted_message_exec(err, "other", "Must match `", "Fields do not match")
    } else {
        err.code.clone()
    }
}

/// The `{field: [messages]}` map that a set of failures is reported as.
pub open spec fn field_messages_spec(errors: Seq<FieldErrorListV>) -> Seq<FieldMessagesV> {
    errors.map_values(
        |l: FieldErrorListV|
            FieldMessagesV { field: l.field, messages: l.errors.map_values(|e: FieldErrorV| message_for_spec(e)) },
    )
}

fn messages_of(list: &FieldErrorList) -> (r: FieldMessages)
    ensures
        r@ == (FieldMessagesV {
            field: list@.field,
            messages: list@.errors.map_values(|e: FieldErrorV| message_for_spec(e)),
        }),
{
    let n = list.errors.len();
    let mut msgs: Vec<String> = Vec::new();
    let mut i: usize = 0;
    while i < n
        invariant
            n == list.errors@.len(),
            0 <= i <= n,
            msgs@.len() == i,
            forall|k: int| 0 <= k < i ==> (#[trigger] msgs@[k])@ == message_for_spec(list.errors@[k]@),
        decreases n - i,
    {
        msgs.push(message_for(&list.errors[i]));
        i = i + 1;
    }
    let r = FieldMessages { field: list.field.clone(), messages: msgs };
    assert(r@.messages =~= list@.errors.map_values(|e: FieldErrorV| message_for_spec(e)));
    r
}

/// The error that answers a request whose body failed validation: code
/// `ERR_VALIDATION`, message `validation failed`, and the messages of every
/// failing field.
pub fn err_from_validation(errors: ValidationErrors) -> (e: ServiceError)
    ensures
        e.message@ == "validation failed"@,
        e.code == codes::ERR_VALIDATION,
        fields_view(e.fields) == Some(field_messages_spec(errors@)),
{
    let entries = &errors.map.entries;
    let n = entries.len();
    let mut fields: Vec<FieldMessages> = Vec::new();
    let mut i: usize = 0;
    while i < n
        invariant
            n == entries@.len(),
            entries == &errors.map.entries,
            0 <= i <= n,
            fields@.len() == i,
            forall|k: int| 0 <= k < i ==> (#[trigger] fields@[k])@ == field_messages_spec(errors@)[k],
        decreases n - i,
    {
        fields.push(messages_of(&entries[i]));
        i = i + 1;
    }
    assert(fields@.map_values(|f: FieldMessages| f@) =~= field_messages_spec(errors@));
    ServiceError { message: String::from_str("validation failed"), code: codes::ERR_VALIDATION, fields: Some(fields) }
}

/// The error a validation failure is answered with names exactly the
/// failing fields, in the same order, one message per failure.
pub proof fn lemma_validation_error_names_failing_fields(errors: Seq<FieldErrorListV>)
    ensures
        field_messages_spec(errors).len() == errors.len(),
        forall|i: int|
            0 <= i < errors.len() ==> (#[trigger] field_messages_spec(errors)[i]).field == errors[i].field
                && field_messages_spec(errors)[i].messages.len() == errors[i].errors.len(),
{
}

} // verus!
