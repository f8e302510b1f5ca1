//! The `Validate` derive: reading `#[validate(...)]` field attributes into
//! validators, with the messages they report.

use vstd::prelude::*;
use crate::text::{join, views, decimal, push_decimal, join_strings};

verus! {

// ---------------------------------------------------------------------------
// Decimal numbers

pub open spec fn is_digit(c: char) -> bool {
    '0' <= c && c <= '9'
}

pub open spec fn all_digits(s: Seq<char>) -> bool {
    forall|i: int| 0 <= i < s.len() ==> is_digit(s[i])
}

/// The value of a string of decimal digits.
pub open spec fn digits_value(s: Seq<char>) -> nat
    decreases s.len(),
{
    if s.len() == 0 {
        0
    } else {
        digits_value(s.drop_last()) * 10 + ((s.last() as u32) - ('0' as u32)) as nat
    }
}

/// What `str::parse::<usize>` gives: an optional `+` followed by at least one
/// decimal digit, whose value fits in `usize`.
pub open spec fn parse_usize_spec(s: Seq<char>) -> Option<usize> {
    let d = if s.len() > 0 && s[0] == '+' { s.drop_first() } else { s };
    if d.len() > 0 && all_digits(d) && digits_value(d) <= usize::MAX {
        Some(digits_value(d) as usize)
    } else {
        None
    }
}

proof fn lemma_digits_value_monotone(s: Seq<char>, i: int)
    requires
        0 <= i <= s.len(),
        all_digits(s),
    ensures
        digits_value(s.take(i)) <= digits_value(s),
    decreases s.len() - i,
{
    if i < s.len() {
        lemma_digits_value_monotone(s, i + 1);
        assert(s.take(i + 1).drop_last() == s.take(i));
        assert(digits_value(s.take(i + 1)) == digits_value(s.take(i)) * 10 + ((s[i] as u32) - ('0' as u32)) as nat);
    } else {
        assert(s.take(i) == s);
    }
}

/// Reads a `usize` the way `str::parse::<usize>` does.
pub fn parse_usize(s: &str) -> (r: Option<usize>)
    ensures
        r == parse_usize_spec(s@),
{
    let cs = crate::text::chars_of(s);
    let start: usize = if cs.len() > 0 && cs[0] == '+' { 1 } else { 0 };
    let ghost d = if cs@.len() > 0 && cs@[0] == '+' { cs@.drop_first() } else { cs@ };
    assert(d == cs@.subrange(start as int, cs@.len() as int));
    if start >= cs.len() {
        return None;
    }
    let mut value: u128 = 0;
    let mut i = start;
    while i < cs.len()
        invariant
            cs@ == s@,
            d == (if s@.len() > 0 && s@[0] == '+' { s@.drop_first() } else { s@ }),
            d == cs@.subrange(start as int, cs@.len() as int),
            start <= i <= cs.len(),
            all_digits(d.take(i - start)),
            value == digits_value(d.take(i - start)),
            value <= usize::MAX,
        decreases cs.len() - i,
    {
        let c = cs[i];
        if !('0' <= c && c <= '9') {
            assert(d[i - start] == c);
            assert(!is_digit(d[i - start]));
            return None;
        }
        let digit = (c as u32 - '0' as u32) as u128;
        let next = value * 10 + digit;
        assert(d.take(i + 1 - start).drop_last() == d.take(i - start));
        assert(d.take(i + 1 - start).last() == c);
        assert(all_digits(d.take(i + 1 - start)));
        assert(digits_value(d.take(i + 1 - start)) == next);
        if next > usize::MAX as u128 {
            proof {
                if all_digits(d) {
                    lemma_digits_value_monotone(d, i + 1 - start);
                }
            }
            return None;
        }
        value = next;
        i = i + 1;
    }
    assert(d.take(cs.len() - start) == d);
    Some(value as usize)
}

proof fn lemma_decimal_digits(n: nat)
    ensures
        decimal(n).len() > 0,
        all_digits(decimal(n)),
        digits_value(decimal(n)) == n,
        decimal(n)[0] != '+',
    decreases n,
{
    if n >= 10 {
        lemma_decimal_digits(n / 10);
        let s = decimal(n / 10);
        let c = crate::text::digit_char(n % 10);
        assert(decimal(n) == s.push(c));
        assert(s.push(c).drop_last() == s);
        assert(s.push(c)[0] == s[0]);
        assert forall|i: int| 0 <= i < s.push(c).len() implies is_digit(#[trigger] s.push(c)[i]) by {
            if i < s.len() {
                assert(s.push(c)[i] == s[i]);
            }
        }
        assert(((c as u32) - ('0' as u32)) as nat == n % 10);
        assert(digits_value(s.push(c)) == digits_value(s) * 10 + ((c as u32) - ('0' as u32)) as nat);
        assert((n / 10) * 10 + n % 10 == n);
        assert(digits_value(decimal(n)) == n);
    } else {
        let c = crate::text::digit_char(n);
        assert(decimal(n) == seq![c]);
        assert(seq![c].drop_last() =~= Seq::<char>::empty());
        assert(((c as u32) - ('0' as u32)) as nat == n);
        assert(digits_value(seq![c]) == digits_value(seq![c].drop_last()) * 10 + ((c as u32) - ('0' as u32)) as nat);
        assert(digits_value(decimal(n)) == n);
    }
}

/// A number written in decimal reads back as itself: the bounds that a
/// validator's message renders are the numbers its attribute gave.
pub proof fn law_decimal_reads_back(n: usize)
    ensures
        parse_usize_spec(decimal(n as nat)) == Some(n),
{
    lemma_decimal_digits(n as nat);
}

// ---------------------------------------------------------------------------
// Attributes

/// The arguments of one validator attribute, such as `length(min = 1)`: its
/// name and its `key = value` pairs in source order.
#[derive(Debug)]
pub struct ValidatorAttribute {
    pub name: String,
    pub attrs: Vec<(String, String)>,
}

/// The value of the last pair whose key is `key` (a later pair overrides an
/// earlier one).
pub open spec fn attr_get(attrs: Seq<(String, String)>, key: Seq<char>) -> Option<Seq<char>>
    decreases attrs.len(),
{
    if attrs.len() == 0 {
        None
    } else if attrs.last().0@ == key {
        Some(attrs.last().1@)
    } else {
        attr_get(attrs.drop_last(), key)
    }
}

/// The keys of `attrs` that are among `allowed`, in order.
pub open spec fn listed_keys(attrs: Seq<(String, String)>, allowed: Seq<Seq<char>>) -> Seq<Seq<char>>
    decreases attrs.len(),
{
    if attrs.len() == 0 {
        Seq::empty()
    } else if allowed.contains(attrs.last().0@) {
        listed_keys(attrs.drop_last(), allowed).push(attrs.last().0@)
    } else {
        listed_keys(attrs.drop_last(), allowed)
    }
}

pub open spec fn allowed_message(keys: Seq<Seq<char>>) -> Seq<char> {
    "They attributes "@ + join(keys, ","@) + " are not supported."@
}

/// The views of a sequence of string slices.
pub open spec fn str_views(v: Seq<&str>) -> Seq<Seq<char>> {
    Seq::new(v.len(), |i: int| v[i]@)
}

fn contains_str(v: &Vec<&str>, s: &String) -> (r: bool)
    ensures
        r == str_views(v@).contains(s@),
{
    let mut i: usize = 0;
    while i < v.len()
        invariant
            i <= v.len(),
            forall|j: int| 0 <= j < i ==> v@[j]@ != s@,
        decreases v.len() - i,
    {
        if crate::text::str_eq(v[i], s.as_str()) {
            assert(str_views(v@)[i as int] == s@);
            return true;
        }
        i = i + 1;
    }
    assert forall|j: int| 0 <= j < v@.len() implies #[trigger] str_views(v@)[j] != s@ by {
        assert(v@[j]@ != s@);
    }
    false
}

impl ValidatorAttribute {
    /// The value given for `key`.
    pub fn get(&self, key: &str) -> (r: Option<String>)
        ensures
            match attr_get(self.attrs@, key@) {
                Some(v) => r matches Some(x) && x@ == v,
                None => r is None,
            },
    {
        let mut i: usize = self.attrs.len();
        assert(self.attrs@.take(i as int) == self.attrs@);
        while i > 0
            invariant
                i <= self.attrs.len(),
                attr_get(self.attrs@, key@) == attr_get(self.attrs@.take(i as int), key@),
            decreases i,
        {
            assert(self.attrs@.take(i as int).drop_last() == self.attrs@.take(i - 1));
            assert(self.attrs@.take(i as int).last() == self.attrs@[i - 1]);
            if crate::text::str_eq(self.attrs[i - 1].0.as_str(), key) {
                return Some(self.attrs[i - 1].1.clone());
            }
            i = i - 1;
        }
        None
    }

    /// The report about this attribute's keys against the keys a validator
    /// takes; it names the given keys that are among them (and is reported
    /// whatever it names).
    pub fn allowed_attrs(&self, attrs_keys: Vec<&str>) -> (r: String)
        ensures
            r@ == allowed_message(listed_keys(self.attrs@, str_views(attrs_keys@))),
    {
        let mut keys: Vec<String> = Vec::new();
        let mut i: usize = 0;
        let ghost allowed = str_views(attrs_keys@);
        while i < self.attrs.len()
            invariant
                i <= self.attrs.len(),
                allowed == str_views(attrs_keys@),
                views(keys@) == listed_keys(self.attrs@.take(i as int), allowed),
            decreases self.attrs.len() - i,
        {
            assert(self.attrs@.take(i + 1).drop_last() == self.attrs@.take(i as int));
            assert(self.attrs@.take(i + 1).last() == self.attrs@[i as int]);
            if contains_str(&attrs_keys, &self.attrs[i].0) {
                let k = self.attrs[i].0.clone();
                let ghost before = keys@;
                keys.push(k);
                proof { crate::text::lemma_views_push(before, k); }
            }
            i = i + 1;
        }
        assert(self.attrs@.take(self.attrs.len() as int) == self.attrs@);
        let mut m = String::from_str("They attributes ");
        let list = join_strings(&keys, ",");
        m.append(list.as_str());
        m.append(" are not supported.");
        m
    }
}

// ---------------------------------------------------------------------------
// Validators

/// Checks the length of a string field.
#[derive(Debug)]
pub struct LengthValidator {
    pub field: String,
    pub max: Option<usize>,
    pub min: Option<usize>,
    pub message: String,
}

pub open spec fn opt_parse(v: Option<Seq<char>>) -> Option<usize> {
    match v {
        Some(s) => parse_usize_spec(s),
        None => None,
    }
}

pub open spec fn length_message(field: Seq<char>, min: Option<usize>, max: Option<usize>) -> Seq<char> {
    if max is Some && min is Some {
        "The field `"@ + field + "` expects to have a value with length between "@
            + decimal(min.unwrap() as nat) + " and "@ + decimal(max.unwrap() as nat)
    } else if max is Some {
        "The field `"@ + field + "` expects to have a value with a max length of "@ + decimal(max.unwrap() as nat)
    } else {
        "The field `"@ + field + "` expects to have a value with a min length of "@ + decimal(min.unwrap() as nat)
    }
}

fn get_usize(attr: &ValidatorAttribute, key: &str) -> (r: Option<usize>)
    ensures
        r == opt_parse(attr_get(attr.attrs@, key@)),
{
    match attr.get(key) {
        Some(v) => parse_usize(v.as_str()),
        None => None,
    }
}

impl LengthValidator {
    /// A length validator from `length(min = .., max = .., message = ..)`;
    /// bounds that do not read as numbers are left out. Also returns the
    /// report on the attribute's keys. At least one bound must read as a
    /// number.
    pub fn new(field: String, attr: ValidatorAttribute) -> (r: (LengthValidator, String))
        requires
            opt_parse(attr_get(attr.attrs@, "max"@)) is Some || opt_parse(attr_get(attr.attrs@, "min"@)) is Some,
        ensures
            r.0.field == field,
            r.0.max == opt_parse(attr_get(attr.attrs@, "max"@)),
            r.0.min == opt_parse(attr_get(attr.attrs@, "min"@)),
            r.0.message@ == length_message(field@, r.0.min, r.0.max),
            r.1@ == allowed_message(listed_keys(attr.attrs@, seq!["max"@, "min"@, "message"@])),
    {
        let keys = vec!["max", "min", "message"];
        assert(str_views(keys@) =~= seq!["max"@, "min"@, "message"@]);
        let report = attr.allowed_attrs(keys);
        let max = get_usize(&attr, "max");
        let min = get_usize(&attr, "min");
        let mut message = String::from_str("The field `");
        message.append(field.as_str());
        match (min, max) {
            (Some(lo), Some(hi)) => {
                message.append("` expects to have a value with length between ");
                push_decimal(&mut message, lo as u128);
                message.append(" and ");
                push_decimal(&mut message, hi as u128);
            },
            (None, Some(hi)) => {
                message.append("` expects to have a value with a max length of ");
                push_decimal(&mut message, hi as u128);
            },
            (Some(lo), None) => {
                message.append("` expects to have a value with a min length of ");
                push_decimal(&mut message, lo as u128);
            },
            (None, None) => {},
        }
        (LengthValidator { field, max, min, message }, report)
    }
}

/// One comparison of a length validator: the length must be at least, or at
/// most, the bound.
#[derive(Clone, Copy, PartialEq, Eq, Structural, Debug)]
pub enum LengthCheck {
    AtLeast(usize),
    AtMost(usize),
}

/// Whether a value of length `len` fails the check `c`.
pub open spec fn check_fails(c: LengthCheck, len: usize) -> bool {
    match c {
        LengthCheck::AtLeast(m) => len < m,
        LengthCheck::AtMost(m) => len > m,
    }
}

/// The checks a length validator's generated code makes, in order: the
/// minimum, then the maximum.
pub open spec fn length_checks(min: Option<usize>, max: Option<usize>) -> Seq<LengthCheck> {
    let a: Seq<LengthCheck> = match min { Some(m) => seq![LengthCheck::AtLeast(m)], None => Seq::empty() };
    match max { Some(m) => a.push(LengthCheck::AtMost(m)), None => a }
}

/// Whether a value of length `len` is reported: shorter than the minimum or
/// longer than the maximum, as the validator's message says.
pub open spec fn length_rejects(min: Option<usize>, max: Option<usize>, len: usize) -> bool {
    (min matches Some(m) && len < m) || (max matches Some(m) && len > m)
}

impl LengthCheck {
    /// Whether a value of length `len` fails this check.
    pub fn fails(&self, len: usize) -> (r: bool)
        ensures
            r == check_fails(*self, len),
    {
        match self {
            LengthCheck::AtLeast(m) => len < *m,
            LengthCheck::AtMost(m) => len > *m,
        }
    }
}

impl LengthValidator {
    /// The comparisons the generated code makes with the value's length.
    pub fn checks(&self) -> (r: Vec<LengthCheck>)
        ensures
            r@ == length_checks(self.min, self.max),
    {
        let mut r: Vec<LengthCheck> = Vec::new();
        match self.min {
            Some(m) => { r.push(LengthCheck::AtLeast(m)); },
            None => {},
        }
        match self.max {
            Some(m) => { r.push(LengthCheck::AtMost(m)); },
            None => {},
        }
        assert(r@ =~= length_checks(self.min, self.max));
        r
    }

    /// Whether a string value of length `len` is reported by this validator.
    pub fn rejects(&self, len: usize) -> (r: bool)
        ensures
            r == length_rejects(self.min, self.max, len),
    {
        proof { lemma_rejects_iff_a_check_fails(self.min, self.max, len); }
        let checks = self.checks();
        let mut i: usize = 0;
        while i < checks.len()
            invariant
                checks@ == length_checks(self.min, self.max),
                i <= checks.len(),
                forall|j: int| 0 <= j < i ==> !check_fails(checks@[j], len),
            decreases checks.len() - i,
        {
            if checks[i].fails(len) {
                assert(check_fails(length_checks(self.min, self.max)[i as int], len));
                return true;
            }
            i = i + 1;
        }
        false
    }
}

/// A value is reported exactly when one of the validator's checks fails.
pub proof fn lemma_rejects_iff_a_check_fails(min: Option<usize>, max: Option<usize>, len: usize)
    ensures
        length_rejects(min, max, len)
            <==> exists|i: int| 0 <= i < length_checks(min, max).len() && check_fails(#[trigger] length_checks(min, max)[i], len),
{
    let cs = length_checks(min, max);
    if length_rejects(min, max, len) {
        if min matches Some(m) && len < m {
            assert(check_fails(cs[0], len));
        } else {
            assert(check_fails(cs[cs.len() - 1], len));
        }
    }
}

/// Checks that a field is present and not null.
#[derive(Debug)]
pub struct RequiredValidator {
    pub field: String,
    pub message: String,
}

impl RequiredValidator {
    /// A required validator, with the attribute's `message` when it gives
    /// one, else `The field {field} is required`. Also returns the report on
    /// the attribute's keys when there is an attribute.
    pub fn new(field: String, attr: Option<ValidatorAttribute>) -> (r: (RequiredValidator, Option<String>))
        ensures
            r.0.field == field,
            match attr {
                Some(a) => (match attr_get(a.attrs@, "message"@) {
                    Some(m) => r.0.message@ == m,
                    None => r.0.message@ == "The field "@ + field@ + " is required"@,
                }) && (r.1 matches Some(rep) && rep@ == allowed_message(listed_keys(a.attrs@, seq!["message"@]))),
                None => r.0.message@ == "The field "@ + field@ + " is required"@ && r.1 is None,
            },
    {
        let (message, report) = match &attr {
            Some(a) => {
                let keys = vec!["message"];
                assert(str_views(keys@) =~= seq!["message"@]);
                let rep = a.allowed_attrs(keys);
                (a.get("message"), Some(rep))
            },
            None => (None, None),
        };
        let message = match message {
            Some(m) => m,
            None => {
                let mut m = String::from_str("The field ");
                m.append(field.as_str());
                m.append(" is required");
                m
            },
        };
        (RequiredValidator { field, message }, report)
    }
}

/// Checks that a field holds a date.
#[derive(Debug)]
pub struct DateValidator {
    pub ident: String,
    pub format: String,
    pub message: String,
}

impl DateValidator {
    /// A date validator, with the attribute's `format` (default `YYYY-MM-DD`)
    /// and `message`. Also returns the report on the attribute's keys.
    pub fn new(ident: String, attr: ValidatorAttribute) -> (r: (DateValidator, String))
        ensures
            r.0.ident == ident,
            match attr_get(attr.attrs@, "format"@) {
                Some(f) => r.0.format@ == f,
                None => r.0.format@ == "YYYY-MM-DD"@,
            },
            match attr_get(attr.attrs@, "message"@) {
                Some(m) => r.0.message@ == m,
                None => r.0.message@ == "The provided date from `"@ + ident@ + "` doesn't have a valid format"@,
            },
            r.1@ == allowed_message(listed_keys(attr.attrs@, seq!["format"@, "message"@])),
    {
        let keys = vec!["format", "message"];
        assert(str_views(keys@) =~= seq!["format"@, "message"@]);
        let report = attr.allowed_attrs(keys);
        let format = match attr.get("format") {
            Some(f) => f,
            None => String::from_str("YYYY-MM-DD"),
        };
        let message = match attr.get("message") {
            Some(m) => m,
            None => {
                let mut m = String::from_str("The provided date from `");
                m.append(ident.as_str());
                m.append("` doesn't have a valid format");
                m
            },
        };
        (DateValidator { ident, format, message }, report)
    }
}

/// A validator of one field.
#[derive(Debug)]
pub enum Validator {
    Length(LengthValidator),
    Required(RequiredValidator),
}

/// One item of a `#[validate(...)]` list.
#[derive(Debug)]
pub enum NestedMeta {
    /// A path, by its last identifier (`required`).
    Path(String),
    /// A list such as `length(min = 1)`.
    List,
    /// `name = value`.
    NameValue,
    /// A literal.
    Lit,
}

/// Whether an item of a `#[validate(...)]` list names the required validator.
pub open spec fn item_is_required(m: NestedMeta) -> bool {
    m matches NestedMeta::Path(name) && name@ == "required"@
}

/// The report that an item of a `#[validate(...)]` list yields, if any.
pub open spec fn item_report(m: NestedMeta) -> Option<Seq<char>> {
    match m {
        NestedMeta::Path(name) => if name@ == "required"@ {
            None
        } else {
            Some(name@ + " isn't a supported validator"@)
        },
        NestedMeta::List => None,
        NestedMeta::NameValue => Some("Unsuported named value at this level"@),
        NestedMeta::Lit => Some("Literals are not supported"@),
    }
}

/// The validators that the items yield, in order.
pub open spec fn nested_count(items: Seq<NestedMeta>) -> nat
    decreases items.len(),
{
    if items.len() == 0 {
        0
    } else {
        nested_count(items.drop_last()) + if item_is_required(items.last()) { 1nat } else { 0nat }
    }
}

/// The reports that the items yield, in order.
pub open spec fn nested_reports(items: Seq<NestedMeta>) -> Seq<Seq<char>>
    decreases items.len(),
{
    if items.len() == 0 {
        Seq::empty()
    } else {
        match item_report(items.last()) {
            Some(m) => nested_reports(items.drop_last()).push(m),
            None => nested_reports(items.drop_last()),
        }
    }
}

impl Validator {
    /// The validators of `field` named by the items of its
    /// `#[validate(...)]` list, and the reports on the items that name none:
    /// `required` gives a required validator; lists are skipped.
    pub fn from_nested_meta(field: &String, nested: &Vec<NestedMeta>) -> (r: (Vec<Validator>, Vec<String>))
        ensures
            r.0@.len() == nested_count(nested@),
            forall|i: int| 0 <= i < r.0@.len() ==> (#[trigger] r.0@[i] matches Validator::Required(v)
                && v.field@ == field@ && v.message@ == "The field "@ + field@ + " is required"@),
            views(r.1@) == nested_reports(nested@),
    {
        let mut validators: Vec<Validator> = Vec::new();
        let mut reports: Vec<String> = Vec::new();
        let mut i: usize = 0;
        while i < nested.len()
            invariant
                i <= nested.len(),
                validators@.len() == nested_count(nested@.take(i as int)),
                forall|j: int| 0 <= j < validators@.len() ==> (#[trigger] validators@[j] matches Validator::Required(v)
                    && v.field@ == field@ && v.message@ == "The field "@ + field@ + " is required"@),
                views(reports@) == nested_reports(nested@.take(i as int)),
            decreases nested.len() - i,
        {
            assert(nested@.take(i + 1).drop_last() == nested@.take(i as int));
            assert(nested@.take(i + 1).last() == nested@[i as int]);
            match &nested[i] {
                NestedMeta::Path(name) => {
                    if crate::text::str_eq(name.as_str(), "required") {
                        let (v, _) = RequiredValidator::new(field.clone(), None);
                        validators.push(Validator::Required(v));
                    } else {
                        let mut m = name.clone();
                        m.append(" isn't a supported validator");
                        let ghost before = reports@;
                        reports.push(m);
                        proof { crate::text::lemma_views_push(before, m); }
                    }
                },
                NestedMeta::List => {},
                NestedMeta::NameValue => {
                    let m = String::from_str("Unsuported named value at this level");
                    let ghost before = reports@;
                    reports.push(m);
                    proof { crate::text::lemma_views_push(before, m); }
                },
                NestedMeta::Lit => {
                    let m = String::from_str("Literals are not supported");
                    let ghost before = reports@;
                    reports.push(m);
                    proof { crate::text::lemma_views_push(before, m); }
                },
            }
            i = i + 1;
        }
        assert(nested@.take(nested.len() as int) == nested@);
        (validators, reports)
    }
}

/// The meta of a field attribute, as it reads.
#[derive(Debug)]
pub enum AttrMeta {
    /// A list `name(item, ...)`.
    List(Vec<NestedMeta>),
    /// A path or `name = value`.
    Other,
}

/// The number of validators and the reports that one field attribute gives:
/// only `validate` attributes count.
pub open spec fn attr_outcome(name: Seq<char>, meta: Result<AttrMeta, String>) -> (nat, Seq<Seq<char>>) {
    if name != "validate"@ {
        (0, Seq::empty())
    } else {
        match meta {
            Ok(AttrMeta::List(n)) => (nested_count(n@), nested_reports(n@)),
            Ok(AttrMeta::Other) => (0, seq!["Unsuported format"@]),
            Err(e) => (0, seq![e@]),
        }
    }
}

/// The number of validators and the reports that the attributes of a field
/// give, in order.
pub open spec fn field_outcome(attrs: Seq<(String, Result<AttrMeta, String>)>) -> (nat, Seq<Seq<char>>)
    decreases attrs.len(),
{
    if attrs.len() == 0 {
        (0, Seq::empty())
    } else {
        let prev = field_outcome(attrs.drop_last());
        let cur = attr_outcome(attrs.last().0@, attrs.last().1);
        (prev.0 + cur.0, prev.1 + cur.1)
    }
}

/// Every validator is the required validator of `field` with its default
/// message.
pub open spec fn all_required(v: Seq<Validator>, field: Seq<char>) -> bool {
    forall|i: int| 0 <= i < v.len() ==> (#[trigger] v[i] matches Validator::Required(r)
        && r.field@ == field && r.message@ == "The field "@ + field + " is required"@)
}

impl Validator {
    /// The validators and reports that one attribute of `field` gives; the
    /// attribute's last path segment is `name`, and `meta` is how its meta
    /// reads (or the error reading it).
    pub fn from_attr(field: &String, name: &str, meta: &Result<AttrMeta, String>) -> (r: (Vec<Validator>, Vec<String>))
        ensures
            r.0@.len() == attr_outcome(name@, *meta).0,
            all_required(r.0@, field@),
            views(r.1@) == attr_outcome(name@, *meta).1,
    {
        if !crate::text::str_eq(name, "validate") {
            let v: Vec<Validator> = Vec::new();
            let rs: Vec<String> = Vec::new();
            assert(views(rs@) =~= Seq::<Seq<char>>::empty());
            return (v, rs);
        }
        match meta {
            Ok(AttrMeta::List(nested)) => Validator::from_nested_meta(field, nested),
            Ok(AttrMeta::Other) => {
                let mut rs: Vec<String> = Vec::new();
                let m = String::from_str("Unsuported format");
                rs.push(m);
                assert(views(rs@) =~= seq![m@]);
                (Vec::new(), rs)
            },
            Err(e) => {
                let mut rs: Vec<String> = Vec::new();
                let c = e.clone();
                rs.push(c);
                assert(views(rs@) =~= seq![e@]);
                (Vec::new(), rs)
            },
        }
    }

    /// The validators and reports that all the attributes of `field` give,
    /// in order.
    pub fn from(field: &String, attrs: &Vec<(String, Result<AttrMeta, String>)>) -> (r: (Vec<Validator>, Vec<String>))
        ensures
            r.0@.len() == field_outcome(attrs@).0,
            all_required(r.0@, field@),
            views(r.1@) == field_outcome(attrs@).1,
    {
        let mut validators: Vec<Validator> = Vec::new();
        let mut reports: Vec<String> = Vec::new();
        assert(views(reports@) =~= Seq::<Seq<char>>::empty());
        let mut i: usize = 0;
        while i < attrs.len()
            invariant
                i <= attrs.len(),
                validators@.len() == field_outcome(attrs@.take(i as int)).0,
                all_required(validators@, field@),
                views(reports@) == field_outcome(attrs@.take(i as int)).1,
            decreases attrs.len() - i,
        {
            assert(attrs@.take(i + 1).drop_last() == attrs@.take(i as int));
            assert(attrs@.take(i + 1).last() == attrs@[i as int]);
            let (vs, rs) = Validator::from_attr(field, attrs[i].0.as_str(), &attrs[i].1);
            let ghost before_v = validators@;
            let ghost before_r = views(reports@);
            let ghost vsv = vs@;
            let ghost rsv = views(rs@);
            let mut vs = vs;
            let mut rs = rs;
            validators.append(&mut vs);
            reports.append(&mut rs);
            assert(views(reports@) =~= before_r + rsv);
            assert forall|k: int| 0 <= k < validators@.len() implies (#[trigger] validators@[k] matches Validator::Required(r)
                && r.field@ == field@ && r.message@ == "The field "@ + field@ + " is required"@) by {
                if k >= before_v.len() {
                    assert(validators@[k] == vsv[k - before_v.len()]);
                } else {
                    assert(validators@[k] == before_v[k]);
                }
            }
            i = i + 1;
        }
        assert(attrs@.take(attrs.len() as int) == attrs@);
        (validators, reports)
    }
}

} // verus!
