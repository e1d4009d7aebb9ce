//! Rules on the fields of a payload, and the violations that a payload commits.
//!
//! A field may be required, may have a least length, and may have to be shaped as an
//! e-mail address, a URL or a phone number. All violations of a payload are collected,
//! not only the first.

use vstd::prelude::*;
use vstd::string::{StrSliceExecFns, StringExecFns};

verus! {

/// The fields that rules speak of.
#[derive(Debug, PartialEq, Eq, Structural, Clone, Copy)]
pub enum Field {
    Firstname,
    Lastname,
    Middlename,
    Fullname,
    Username,
    Email,
    Avatar,
    PhoneNumber,
    Password,
}

/// The kinds of rule, each with the parameter that it is checked against.
#[derive(Debug, PartialEq, Eq, Structural, Clone, Copy)]
pub enum Rule {
    /// The field must be present.
    Required,
    /// The field must hold at least `min` characters.
    Length { min: u64 },
    /// The field must be shaped as an e-mail address.
    Email,
    /// The field must be shaped as a URL.
    Url,
    /// The field must be shaped as a phone number.
    Phone,
}

/// One rule that one field does not meet.
#[derive(Debug, PartialEq, Eq, Structural, Clone, Copy)]
pub struct Violation {
    pub field: Field,
    pub rule: Rule,
}

/// The violations of a payload, in the order of its fields. It is never empty where
/// a validation hands it out.
#[derive(Debug, Clone, PartialEq, Eq)]
pub struct ViolationSet {
    pub violations: Vec<Violation>,
}

impl View for ViolationSet {
    type V = Seq<Violation>;

    open spec fn view(&self) -> Seq<Violation> {
        self.violations@
    }
}

/// What `validator::validate_email` answers for a text.
pub uninterp spec fn email_shaped(s: Seq<char>) -> bool;

/// What `validator::validate_url` answers for a text.
pub uninterp spec fn url_shaped(s: Seq<char>) -> bool;

/// What `validator::validate_phone` answers for a text.
pub uninterp spec fn phone_shaped(s: Seq<char>) -> bool;

/// `validator::validate_email`: whether a text is an e-mail address as HTML5 defines
/// one. The contract names the result.
#[verifier::external_body]
fn is_email(s: &str) -> (r: bool)
    ensures
        r == email_shaped(s@),
{
    validator::validate_email(s)
}

/// `validator::validate_url`: whether a text parses as a URL. The contract names the
/// result.
#[verifier::external_body]
fn is_url(s: &str) -> (r: bool)
    ensures
        r == url_shaped(s@),
{
    validator::validate_url(s)
}

/// `validator::validate_phone`: whether a text parses as a phone number in
/// international form that is valid for its region. The contract names the result.
#[verifier::external_body]
fn is_phone(s: &str) -> (r: bool)
    ensures
        r == phone_shaped(s@),
{
    validator::validate_phone(s)
}

impl Field {
    /// The name of the field as callers write it.
    pub open spec fn name_text(self) -> Seq<char> {
        match self {
            Field::Firstname => "firstname"@,
            Field::Lastname => "lastname"@,
            Field::Middlename => "middlename"@,
            Field::Fullname => "fullname"@,
            Field::Username => "username"@,
            Field::Email => "email"@,
            Field::Avatar => "avatar"@,
            Field::PhoneNumber => "phone_number"@,
            Field::Password => "password"@,
        }
    }

    /// The name of the field as callers write it.
    pub fn name(&self) -> (r: String)
        ensures
            r@ == self.name_text(),
    {
        match self {
            Field::Firstname => String::from_str("firstname"),
            Field::Lastname => String::from_str("lastname"),
            Field::Middlename => String::from_str("middlename"),
            Field::Fullname => String::from_str("fullname"),
            Field::Username => String::from_str("username"),
            Field::Email => String::from_str("email"),
            Field::Avatar => String::from_str("avatar"),
            Field::PhoneNumber => String::from_str("phone_number"),
            Field::Password => String::from_str("password"),
        }
    }
}

impl Rule {
    /// The short name of the rule's kind.
    pub open spec fn code_text(self) -> Seq<char> {
        match self {
            Rule::Required => "required"@,
            Rule::Length { .. } => "length"@,
            Rule::Email => "email"@,
            Rule::Url => "url"@,
            Rule::Phone => "phone"@,
        }
    }

    /// The short name of the rule's kind.
    pub fn code(&self) -> (r: String)
        ensures
            r@ == self.code_text(),
    {
        match self {
            Rule::Required => String::from_str("required"),
            Rule::Length { .. } => String::from_str("length"),
            Rule::Email => String::from_str("email"),
            Rule::Url => String::from_str("url"),
            Rule::Phone => String::from_str("phone"),
        }
    }

    /// The least length that the rule asks for, if it asks for one.
    pub fn least(&self) -> (r: Option<u64>)
        ensures
            r == match *self {
                Rule::Length { min } => Some(min),
                _ => None,
            },
    {
        match self {
            Rule::Length { min } => Some(*min),
            _ => None,
        }
    }

    /// Whether a text has the shape that the rule asks for: the answer of the
    /// recognizer for `Email`, `Url` and `Phone`. The other rules ask for no shape.
    pub open spec fn shaped(self, s: Seq<char>) -> bool {
        match self {
            Rule::Email => email_shaped(s),
            Rule::Url => url_shaped(s),
            Rule::Phone => phone_shaped(s),
            _ => true,
        }
    }

    /// Asks the recognizer of the rule's shape about a text.
    pub fn check_shape(&self, s: &str) -> (r: bool)
        ensures
            r == self.shaped(s@),
    {
        match self {
            Rule::Email => is_email(s),
            Rule::Url => is_url(s),
            Rule::Phone => is_phone(s),
            _ => true,
        }
    }
}

/// The violations of a field that is required and must hold at least `min`
/// characters: `Required` where it is absent, `Length` where it is too short.
pub open spec fn required_length(field: Field, value: Option<String>, min: u64) -> Seq<Violation> {
    match value {
        None => seq![Violation { field, rule: Rule::Required }],
        Some(text) => if text@.len() < min {
            seq![Violation { field, rule: Rule::Length { min } }]
        } else {
            Seq::empty()
        },
    }
}

/// The violations of a text that must hold at least `min` characters.
pub open spec fn least_length(field: Field, text: Seq<char>, min: u64) -> Seq<Violation> {
    if text.len() < min {
        seq![Violation { field, rule: Rule::Length { min } }]
    } else {
        Seq::empty()
    }
}

/// The violations of a text that must have the shape of a rule, given the recognizer's
/// answer.
pub open spec fn shape(field: Field, rule: Rule, well_shaped: bool) -> Seq<Violation> {
    if well_shaped {
        Seq::empty()
    } else {
        seq![Violation { field, rule }]
    }
}

/// The violations of a field that is required and must have the shape of a rule,
/// given the recognizer's answer for the field's text: `Required` where the field is
/// absent, the rule where the text is there and ill-shaped.
pub open spec fn required_shape(
    field: Field,
    rule: Rule,
    value: Option<String>,
    well_shaped: bool,
) -> Seq<Violation> {
    match value {
        None => seq![Violation { field, rule: Rule::Required }],
        Some(_) => shape(field, rule, well_shaped),
    }
}

/// The violations of a field that may be absent and, where present, must have the
/// shape of a rule, given the recognizer's answer for the field's text.
pub open spec fn optional_shape(
    field: Field,
    rule: Rule,
    value: Option<String>,
    well_shaped: bool,
) -> Seq<Violation> {
    match value {
        None => Seq::empty(),
        Some(_) => shape(field, rule, well_shaped),
    }
}

/// Whether some violation of the list names the field.
pub open spec fn names(violations: Seq<Violation>, field: Field) -> bool {
    exists|i: int| 0 <= i < violations.len() && (#[trigger] violations[i]).field == field
}

/// Adds the violations of a text that must hold at least `min` characters.
pub fn check_least_length(field: Field, text: &str, min: u64, found: &mut Vec<Violation>)
    ensures
        final(found)@ == old(found)@ + least_length(field, text@, min),
{
    let length = text.unicode_len();
    if (length as u64) < min {
        found.push(Violation { field, rule: Rule::Length { min } });
        assert(found@ =~= old(found)@ + least_length(field, text@, min));
    } else {
        assert(found@ =~= old(found)@ + least_length(field, text@, min));
    }
}

/// Adds the violations of a field that is required and must hold at least `min`
/// characters.
pub fn check_required_length(
    field: Field,
    value: &Option<String>,
    min: u64,
    found: &mut Vec<Violation>,
)
    ensures
        final(found)@ == old(found)@ + required_length(field, *value, min),
{
    match value {
        None => {
            found.push(Violation { field, rule: Rule::Required });
            assert(found@ =~= old(found)@ + required_length(field, *value, min));
        },
        Some(text) => {
            check_least_length(field, text.as_str(), min, found);
        },
    }
}

/// Adds the violation of a text that the recognizer of a rule's shape refused.
pub fn check_shape(field: Field, rule: Rule, well_shaped: bool, found: &mut Vec<Violation>)
    ensures
        final(found)@ == old(found)@ + shape(field, rule, well_shaped),
{
    if !well_shaped {
        found.push(Violation { field, rule });
    }
    assert(found@ =~= old(found)@ + shape(field, rule, well_shaped));
}

/// Adds the violations of a field that is required and must have the shape of a rule.
pub fn check_required_shape(
    field: Field,
    rule: Rule,
    value: &Option<String>,
    well_shaped: bool,
    found: &mut Vec<Violation>,
)
    ensures
        final(found)@ == old(found)@ + required_shape(field, rule, *value, well_shaped),
{
    match value {
        None => {
            found.push(Violation { field, rule: Rule::Required });
            assert(found@ =~= old(found)@ + required_shape(field, rule, *value, well_shaped));
        },
        Some(_) => {
            check_shape(field, rule, well_shaped, found);
        },
    }
}

/// Adds the violations of a field that may be absent and, where present, must have the
/// shape of a rule.
pub fn check_optional_shape(
    field: Field,
    rule: Rule,
    value: &Option<String>,
    well_shaped: bool,
    found: &mut Vec<Violation>,
)
    ensures
        final(found)@ == old(found)@ + optional_shape(field, rule, *value, well_shaped),
{
    match value {
        None => {
            assert(found@ =~= old(found)@ + optional_shape(field, rule, *value, well_shaped));
        },
        Some(_) => {
            check_shape(field, rule, well_shaped, found);
        },
    }
}

/// The recognizer's answer for a field that may be absent. An absent field has no text to
/// ask about, and its answer is never read: it is given as `true`.
pub fn shape_of(rule: Rule, value: &Option<String>) -> (r: bool)
    ensures
        r == match *value {
            Some(text) => rule.shaped(text@),
            None => true,
        },
{
    match value {
        Some(text) => rule.check_shape(text.as_str()),
        None => true,
    }
}

/// The outcome of a validation: success where nothing was violated, else all the
/// violations.
pub fn outcome(found: Vec<Violation>) -> (r: Result<(), ViolationSet>)
    ensures
        found@.len() == 0 ==> r is Ok,
        found@.len() > 0 ==> (r matches Err(set) && set@ == found@),
{
    if found.len() == 0 {
        Ok(())
    } else {
        Err(ViolationSet { violations: found })
    }
}

impl ViolationSet {
    /// Whether some violation names the field.
    pub fn names(&self, field: Field) -> (r: bool)
        ensures
            r == names(self@, field),
    {
        let mut i: usize = 0;
        while i < self.violations.len()
            invariant
                0 <= i <= self.violations.len(),
                forall|j: int| 0 <= j < i ==> (#[trigger] self@[j]).field != field,
            decreases self.violations.len() - i,
        {
            if self.violations[i].field == field {
                return true;
            }
            i = i + 1;
        }
        false
    }

    /// Whether the field violates the rule.
    pub fn holds(&self, field: Field, rule: Rule) -> (r: bool)
        ensures
            r == self@.contains(Violation { field, rule }),
    {
        let wanted = Violation { field, rule };
        let mut i: usize = 0;
        while i < self.violations.len()
            invariant
                0 <= i <= self.violations.len(),
                wanted == (Violation { field, rule }),
                forall|j: int| 0 <= j < i ==> self@[j] != wanted,
            decreases self.violations.len() - i,
        {
            if self.violations[i] == wanted {
                return true;
            }
            i = i + 1;
        }
        false
    }

    /// The number of violations.
    pub fn len(&self) -> (r: usize)
        ensures
            r == self@.len(),
    {
        self.violations.len()
    }
}

} // verus!
