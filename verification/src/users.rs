//! The user entity: the stored record, the payloads that callers send, the rules on
//! their fields, and the user's part in the storage operations.

use vstd::prelude::*;
use vstd::string::StringExecFns;
use crate::credentials::{
    accepts,
    bare,
    hash_secret,
    hashes,
    lemma_hashed_secret_verifies,
    trim,
    trimmed,
    verify_secret,
};
use crate::identity::{is_random_identity, Identity};
use crate::persistence::{
    Create,
    Entity,
    Find,
    FindByPk,
    Param,
    ParamView,
    Statement,
    StatementView,
    StorageError,
};
use crate::profile::{AccountStatus, CalendarDate, Timestamp, UserGender};
use crate::text::same_text;
use crate::validation::{
    check_least_length,
    check_optional_shape,
    check_required_length,
    check_required_shape,
    check_shape,
    least_length,
    names,
    optional_shape,
    outcome,
    required_length,
    required_shape,
    shape,
    shape_of,
    Field,
    Rule,
    Violation,
    ViolationSet,
};

verus! {

/// A user as storage holds it. The identity is generated when the record is created.
/// The password is held as a hash only.
#[derive(Debug, Clone, PartialEq, Eq)]
pub struct UserModel {
    pub id: Identity,
    pub firstname: Option<String>,
    pub lastname: Option<String>,
    pub middlename: Option<String>,
    pub fullname: Option<String>,
    pub username: Option<String>,
    pub email: Option<String>,
    pub account_status: Option<AccountStatus>,
    pub date_of_birth: Option<CalendarDate>,
    pub gender: Option<UserGender>,
    pub avatar: Option<String>,
    pub phone_number: Option<String>,
    pub password: Option<String>,
    pub created_at: Option<Timestamp>,
    pub updated_at: Option<Timestamp>,
    pub otp_id: Option<Identity>,
    pub last_available_at: Option<Timestamp>,
}

/// The attributes of a user as a caller sends them. The password is in cleartext here
/// and nowhere else.
#[derive(Debug, Clone, PartialEq, Eq)]
pub struct UserInformation {
    pub firstname: Option<String>,
    pub lastname: Option<String>,
    pub middlename: Option<String>,
    pub fullname: Option<String>,
    pub username: Option<String>,
    pub email: Option<String>,
    pub account_status: Option<AccountStatus>,
    pub date_of_birth: Option<CalendarDate>,
    pub gender: Option<UserGender>,
    pub avatar: Option<String>,
    pub phone_number: Option<String>,
    pub password: Option<String>,
    pub created_at: Option<Timestamp>,
    pub updated_at: Option<Timestamp>,
    pub last_available_at: Option<Timestamp>,
}

/// What a caller sends to log in or to sign up. The full name is used for signing up
/// only.
#[derive(Debug, Clone, PartialEq, Eq)]
pub struct UserAuthCredentials {
    pub email: String,
    pub password: String,
    pub fullname: Option<String>,
}

/// What a caller sends to set a new password: the password and its repetition, both in
/// cleartext.
#[derive(Debug, Clone, PartialEq, Eq)]
pub struct ResetUserPassword {
    pub new_password: String,
    pub confirm_password: String,
}

/// Why no insertion was planned for a payload.
#[derive(Debug, Clone, PartialEq, Eq)]
pub enum RegistrationError {
    /// The payload violates rules on its fields: the caller can mend it.
    ValidationFailed(ViolationSet),
    /// The password could not be hashed.
    HashingFault,
}

/// The least number of characters of a name.
pub const MIN_NAME_LENGTH: u64 = 1;

/// The least number of characters of a password.
pub const MIN_PASSWORD_LENGTH: u64 = 8;

/// The text of an optional field, the empty text where it is absent.
pub open spec fn text_or_empty(value: Option<String>) -> Seq<char> {
    match value {
        Some(text) => text@,
        None => Seq::empty(),
    }
}

/// The text of the statement that inserts a user. Where the e-mail address is taken
/// already, the statement inserts nothing and returns no record.
pub open spec fn insert_text() -> Seq<char> {
    "INSERT INTO user_information (id, gender, firstname, lastname, middlename, fullname, username, email, date_of_birth, avatar, phone_number, password) VALUES ($1, $2, NULLIF($3, ''), NULLIF($4, ''), NULLIF($5, ''), NULLIF($6, ''), NULLIF($7, ''), $8, $9, NULLIF($10, ''), NULLIF($11, ''), NULLIF($12, '')) ON CONFLICT (email) DO NOTHING RETURNING *"@
}

/// The statement that inserts a user with the given identity and password hash. An
/// absent text is bound as the empty text, an absent gender as `Unspecified`, an
/// absent date of birth as the first day of 1970. The e-mail address is bound without
/// the white space around it. The cleartext password is not bound.
pub open spec fn insert_plan(fields: UserInformation, id: u128, hash: Seq<char>) -> StatementView {
    StatementView {
        text: insert_text(),
        params: seq![
            ParamView::Identity(id),
            ParamView::Gender(
                match fields.gender {
                    Some(gender) => gender,
                    None => UserGender::Unspecified,
                },
            ),
            ParamView::Text(text_or_empty(fields.firstname)),
            ParamView::Text(text_or_empty(fields.lastname)),
            ParamView::Text(text_or_empty(fields.middlename)),
            ParamView::Text(text_or_empty(fields.fullname)),
            ParamView::Text(text_or_empty(fields.username)),
            ParamView::Text(trimmed(text_or_empty(fields.email))),
            ParamView::Date(
                match fields.date_of_birth {
                    Some(date) => date,
                    None => CalendarDate::epoch(),
                },
            ),
            ParamView::Text(text_or_empty(fields.avatar)),
            ParamView::Text(text_or_empty(fields.phone_number)),
            ParamView::Text(hash),
        ],
    }
}

fn owned_or_empty(value: &Option<String>) -> (r: String)
    ensures
        r@ == text_or_empty(*value),
{
    match value {
        Some(text) => text.clone(),
        None => String::new(),
    }
}

impl UserInformation {
    /// Whether a field must be present.
    pub open spec fn is_required(field: Field) -> bool {
        field != Field::Avatar && field != Field::PhoneNumber
    }

    /// The text that the payload holds for a field.
    pub open spec fn text_of(self, field: Field) -> Option<String> {
        match field {
            Field::Firstname => self.firstname,
            Field::Lastname => self.lastname,
            Field::Middlename => self.middlename,
            Field::Fullname => self.fullname,
            Field::Username => self.username,
            Field::Email => self.email,
            Field::Avatar => self.avatar,
            Field::PhoneNumber => self.phone_number,
            Field::Password => self.password,
        }
    }

    /// The violations of the payload, in the order of its fields, given what the
    /// recognizers answer for the e-mail address, the avatar and the phone number.
    ///
    /// The names and the user name are required and hold at least one character. The
    /// e-mail address is required and shaped as one. The avatar, where present, is a
    /// URL. The phone number, where present, is shaped as one. The password is
    /// required and holds at least eight characters.
    pub open spec fn violations_given(
        self,
        email_ok: bool,
        avatar_ok: bool,
        phone_ok: bool,
    ) -> Seq<Violation> {
        required_length(Field::Firstname, self.firstname, MIN_NAME_LENGTH)
            + required_length(Field::Lastname, self.lastname, MIN_NAME_LENGTH)
            + required_length(Field::Middlename, self.middlename, MIN_NAME_LENGTH)
            + required_length(Field::Fullname, self.fullname, MIN_NAME_LENGTH)
            + required_length(Field::Username, self.username, MIN_NAME_LENGTH)
            + required_shape(Field::Email, Rule::Email, self.email, email_ok)
            + optional_shape(Field::Avatar, Rule::Url, self.avatar, avatar_ok)
            + optional_shape(Field::PhoneNumber, Rule::Phone, self.phone_number, phone_ok)
            + required_length(Field::Password, self.password, MIN_PASSWORD_LENGTH)
    }

    /// The violations of the payload.
    pub open spec fn violations(self) -> Seq<Violation> {
        self.violations_given(
            Rule::Email.shaped(text_or_empty(self.email)),
            Rule::Url.shaped(text_or_empty(self.avatar)),
            Rule::Phone.shaped(text_or_empty(self.phone_number)),
        )
    }

    /// Whether the payload meets every rule, given what the recognizers answer.
    pub open spec fn well_formed_given(self, email_ok: bool, avatar_ok: bool, phone_ok: bool) -> bool {
        &&& self.firstname matches Some(text) && text@.len() >= MIN_NAME_LENGTH
        &&& self.lastname matches Some(text) && text@.len() >= MIN_NAME_LENGTH
        &&& self.middlename matches Some(text) && text@.len() >= MIN_NAME_LENGTH
        &&& self.fullname matches Some(text) && text@.len() >= MIN_NAME_LENGTH
        &&& self.username matches Some(text) && text@.len() >= MIN_NAME_LENGTH
        &&& self.email is Some && email_ok
        &&& self.avatar is Some ==> avatar_ok
        &&& self.phone_number is Some ==> phone_ok
        &&& self.password matches Some(text) && text@.len() >= MIN_PASSWORD_LENGTH
    }

    /// Whether the payload meets every rule.
    pub open spec fn well_formed(self) -> bool {
        self.well_formed_given(
            Rule::Email.shaped(text_or_empty(self.email)),
            Rule::Url.shaped(text_or_empty(self.avatar)),
            Rule::Phone.shaped(text_or_empty(self.phone_number)),
        )
    }

    /// Collects the violations of the payload, given what the recognizers answer for the
    /// e-mail address, the avatar and the phone number. An answer for an absent field
    /// is not read.
    pub fn collect_violations(&self, email_ok: bool, avatar_ok: bool, phone_ok: bool) -> (r: Vec<
        Violation,
    >)
        ensures
            r@ == self.violations_given(email_ok, avatar_ok, phone_ok),
    {
        let mut found: Vec<Violation> = Vec::new();
        check_required_length(Field::Firstname, &self.firstname, MIN_NAME_LENGTH, &mut found);
        check_required_length(Field::Lastname, &self.lastname, MIN_NAME_LENGTH, &mut found);
        check_required_length(Field::Middlename, &self.middlename, MIN_NAME_LENGTH, &mut found);
        check_required_length(Field::Fullname, &self.fullname, MIN_NAME_LENGTH, &mut found);
        check_required_length(Field::Username, &self.username, MIN_NAME_LENGTH, &mut found);
        check_required_shape(Field::Email, Rule::Email, &self.email, email_ok, &mut found);
        check_optional_shape(Field::Avatar, Rule::Url, &self.avatar, avatar_ok, &mut found);
        check_optional_shape(Field::PhoneNumber, Rule::Phone, &self.phone_number, phone_ok, &mut found);
        check_required_length(Field::Password, &self.password, MIN_PASSWORD_LENGTH, &mut found);
        assert(found@ =~= self.violations_given(email_ok, avatar_ok, phone_ok));
        found
    }

    /// Checks the payload against the rules on its fields. It succeeds exactly where
    /// the payload meets every rule, and else returns every violation. A required
    /// field that is absent is named by one of them.
    pub fn validate(&self) -> (r: Result<(), ViolationSet>)
        ensures
            r is Ok <==> self.well_formed(),
            r is Ok <==> self.violations().len() == 0,
            r matches Err(set) ==> set@ == self.violations(),
            forall|field: Field|
                UserInformation::is_required(field) && (#[trigger] self.text_of(field)) is None
                    ==> r is Err && names(r->Err_0@, field),
    {
        let email_ok = shape_of(Rule::Email, &self.email);
        let avatar_ok = shape_of(Rule::Url, &self.avatar);
        let phone_ok = shape_of(Rule::Phone, &self.phone_number);
        proof {
            let email_shaped = Rule::Email.shaped(text_or_empty(self.email));
            let avatar_shaped = Rule::Url.shaped(text_or_empty(self.avatar));
            let phone_shaped = Rule::Phone.shaped(text_or_empty(self.phone_number));
            self.lemma_unread_answers(
                email_ok,
                avatar_ok,
                phone_ok,
                email_shaped,
                avatar_shaped,
                phone_shaped,
            );
            self.lemma_well_formed_has_no_violation(email_shaped, avatar_shaped, phone_shaped);
            assert forall|field: Field|
                UserInformation::is_required(field) && (#[trigger] self.text_of(field))
                    is None implies names(self.violations(), field) by {
                self.lemma_missing_required_field_is_named(
                    field,
                    email_shaped,
                    avatar_shaped,
                    phone_shaped,
                );
            }
        }
        outcome(self.collect_violations(email_ok, avatar_ok, phone_ok))
    }

    /// The answer of a recognizer for an absent field changes nothing.
    pub proof fn lemma_unread_answers(
        self,
        email_ok: bool,
        avatar_ok: bool,
        phone_ok: bool,
        other_email_ok: bool,
        other_avatar_ok: bool,
        other_phone_ok: bool,
    )
        requires
            self.email is Some ==> email_ok == other_email_ok,
            self.avatar is Some ==> avatar_ok == other_avatar_ok,
            self.phone_number is Some ==> phone_ok == other_phone_ok,
        ensures
            self.violations_given(email_ok, avatar_ok, phone_ok) == self.violations_given(
                other_email_ok,
                other_avatar_ok,
                other_phone_ok,
            ),
    {
    }

    /// A payload that lacks a required field violates `Required` on that field, so its
    /// validation fails with a violation that names the field.
    pub proof fn lemma_missing_required_field_is_named(
        self,
        field: Field,
        email_ok: bool,
        avatar_ok: bool,
        phone_ok: bool,
    )
        requires
            UserInformation::is_required(field),
            self.text_of(field) is None,
        ensures
            self.violations_given(email_ok, avatar_ok, phone_ok).contains(
                Violation { field, rule: Rule::Required },
            ),
            names(self.violations_given(email_ok, avatar_ok, phone_ok), field),
    {
        let all = self.violations_given(email_ok, avatar_ok, phone_ok);
        let wanted = Violation { field, rule: Rule::Required };
        let first = required_length(Field::Firstname, self.firstname, MIN_NAME_LENGTH);
        let last = required_length(Field::Lastname, self.lastname, MIN_NAME_LENGTH);
        let middle = required_length(Field::Middlename, self.middlename, MIN_NAME_LENGTH);
        let full = required_length(Field::Fullname, self.fullname, MIN_NAME_LENGTH);
        let user = required_length(Field::Username, self.username, MIN_NAME_LENGTH);
        let email = required_shape(Field::Email, Rule::Email, self.email, email_ok);
        let avatar = optional_shape(Field::Avatar, Rule::Url, self.avatar, avatar_ok);
        let phone = optional_shape(Field::PhoneNumber, Rule::Phone, self.phone_number, phone_ok);
        let password = required_length(Field::Password, self.password, MIN_PASSWORD_LENGTH);
        assert(all == first + last + middle + full + user + email + avatar + phone + password);
        let at: int = match field {
            Field::Firstname => 0,
            Field::Lastname => first.len() as int,
            Field::Middlename => (first + last).len() as int,
            Field::Fullname => (first + last + middle).len() as int,
            Field::Username => (first + last + middle + full).len() as int,
            Field::Email => (first + last + middle + full + user).len() as int,
            _ => (first + last + middle + full + user + email + avatar + phone).len() as int,
        };
        assert(0 <= at < all.len());
        assert(all[at] == wanted);
    }

    /// A payload has no violation exactly when it meets every rule: every required
    /// field is present, each name holds at least one character, the password at
    /// least eight, and what is present of e-mail address, avatar and phone number is
    /// well shaped.
    pub proof fn lemma_well_formed_has_no_violation(
        self,
        email_ok: bool,
        avatar_ok: bool,
        phone_ok: bool,
    )
        ensures
            self.well_formed_given(email_ok, avatar_ok, phone_ok) <==> self.violations_given(
                email_ok,
                avatar_ok,
                phone_ok,
            ).len() == 0,
    {
    }
}

impl UserAuthCredentials {
    /// The violations of the credentials, given what the recognizer answers for the
    /// e-mail address: the address is shaped as one, and the password holds at least
    /// eight characters.
    pub open spec fn violations_given(self, email_ok: bool) -> Seq<Violation> {
        shape(Field::Email, Rule::Email, email_ok) + least_length(
            Field::Password,
            self.password@,
            MIN_PASSWORD_LENGTH,
        )
    }

    /// The violations of the credentials.
    pub open spec fn violations(self) -> Seq<Violation> {
        self.violations_given(Rule::Email.shaped(self.email@))
    }

    /// Whether the credentials meet every rule.
    pub open spec fn well_formed(self) -> bool {
        Rule::Email.shaped(self.email@) && self.password@.len() >= MIN_PASSWORD_LENGTH
    }

    /// Collects the violations of the credentials, given what the recognizer answers for
    /// the e-mail address.
    pub fn collect_violations(&self, email_ok: bool) -> (r: Vec<Violation>)
        ensures
            r@ == self.violations_given(email_ok),
    {
        let mut found: Vec<Violation> = Vec::new();
        check_shape(Field::Email, Rule::Email, email_ok, &mut found);
        check_least_length(Field::Password, self.password.as_str(), MIN_PASSWORD_LENGTH, &mut found);
        assert(found@ =~= self.violations_given(email_ok));
        found
    }

    /// Checks the credentials against the rules on their fields. It succeeds exactly
    /// where the credentials meet every rule, and else returns every violation.
    pub fn validate(&self) -> (r: Result<(), ViolationSet>)
        ensures
            r is Ok <==> self.well_formed(),
            r matches Err(set) ==> set@ == self.violations(),
    {
        let email_ok = Rule::Email.check_shape(self.email.as_str());
        outcome(self.collect_violations(email_ok))
    }
}

impl UserModel {
    /// Hashes a user's cleartext password for storage, without the white space
    /// around it. The password must be there: a payload that passed validation has
    /// one.
    pub fn hash_pswd(password: Option<String>) -> (r: Result<String, StorageError>)
        requires
            password is Some,
        ensures
            r matches Ok(hash) ==> hashes(password->0@, hash@),
            r matches Err(fault) ==> fault == StorageError::HashingFault,
    {
        let cleartext = password.unwrap();
        hash_secret(cleartext.as_str())
    }

    /// Whether the user's stored hash accepts a candidate password.
    pub open spec fn accepts_password(self, candidate: Seq<char>) -> bool {
        self.password matches Some(hash) && accepts(candidate, hash@)
    }

    /// A user who stores a hash of a password accepts that password, where it has no
    /// white space around it; with white space around it, the user accepts what is
    /// left without.
    pub proof fn lemma_stored_password_is_accepted(self, cleartext: Seq<char>)
        requires
            self.password matches Some(hash) && hashes(cleartext, hash@),
        ensures
            self.accepts_password(trimmed(cleartext)),
            bare(cleartext) ==> self.accepts_password(cleartext),
    {
        lemma_hashed_secret_verifies(cleartext, self.password->0@);
    }

    /// Checks a candidate password against the user's stored hash. A user without a
    /// stored hash, or with one that cannot be read, accepts no password.
    pub fn verify_pswd_hash(&self, raw_password: &str) -> (r: bool)
        ensures
            r == self.accepts_password(raw_password@),
    {
        match &self.password {
            Some(hash) => verify_secret(raw_password, hash.as_str()),
            None => false,
        }
    }

    /// The user as it may leave the process: without the password hash and without
    /// the passcode reference, and else unchanged.
    pub fn without_secrets(self) -> (r: UserModel)
        ensures
            r == (UserModel { password: None, otp_id: None, ..self }),
    {
        UserModel { password: None, otp_id: None, ..self }
    }

    /// Plans the insertion of a user with the given identity and password hash.
    pub fn insert_statement(fields: &UserInformation, id: Identity, hashed_password: String) -> (r:
        Statement)
        ensures
            r@ == insert_plan(*fields, id.value, hashed_password@),
    {
        let text = String::from_str(
            "INSERT INTO user_information (id, gender, firstname, lastname, middlename, fullname, username, email, date_of_birth, avatar, phone_number, password) VALUES ($1, $2, NULLIF($3, ''), NULLIF($4, ''), NULLIF($5, ''), NULLIF($6, ''), NULLIF($7, ''), $8, $9, NULLIF($10, ''), NULLIF($11, ''), NULLIF($12, '')) ON CONFLICT (email) DO NOTHING RETURNING *",
        );
        let gender = match fields.gender {
            Some(gender) => gender,
            None => UserGender::default(),
        };
        let date_of_birth = match fields.date_of_birth {
            Some(date) => date,
            None => CalendarDate::default(),
        };
        let email = owned_or_empty(&fields.email);
        let email = String::from_str(trim(email.as_str()));
        let mut params: Vec<Param> = Vec::new();
        params.push(Param::Identity(id));
        params.push(Param::Gender(gender));
        params.push(Param::Text(owned_or_empty(&fields.firstname)));
        params.push(Param::Text(owned_or_empty(&fields.lastname)));
        params.push(Param::Text(owned_or_empty(&fields.middlename)));
        params.push(Param::Text(owned_or_empty(&fields.fullname)));
        params.push(Param::Text(owned_or_empty(&fields.username)));
        params.push(Param::Text(email));
        params.push(Param::Date(date_of_birth));
        params.push(Param::Text(owned_or_empty(&fields.avatar)));
        params.push(Param::Text(owned_or_empty(&fields.phone_number)));
        params.push(Param::Text(hashed_password));
        let statement = Statement { text, params };
        assert(statement@.params =~= insert_plan(*fields, id.value, hashed_password@).params);
        statement
    }
}

impl UserModel {
    /// Validates a payload and, where it meets every rule, plans the insertion of the
    /// user it describes.
    ///
    /// A payload that violates a rule is refused with all its violations, and nothing
    /// is hashed or planned for it. For a payload that meets every rule, the only
    /// failure is `HashingFault`.
    pub fn registration_statement(fields: &UserInformation) -> (r: Result<
        Statement,
        RegistrationError,
    >)
        ensures
            !fields.well_formed() ==> (r matches Err(RegistrationError::ValidationFailed(set))
                && set@ == fields.violations()),
            fields.well_formed() ==> match r {
                Ok(statement) => UserModel::inserts(fields, statement@),
                Err(error) => error == RegistrationError::HashingFault,
            },
    {
        match fields.validate() {
            Err(violations) => Err(RegistrationError::ValidationFailed(violations)),
            Ok(()) => match UserModel::create_statement(fields) {
                Ok(statement) => Ok(statement),
                Err(_) => Err(RegistrationError::HashingFault),
            },
        }
    }
}

impl Entity for UserModel {
    open spec fn table() -> Seq<char> {
        "user_information"@
    }

    fn table_name() -> (r: String) {
        String::from_str("user_information")
    }
}

impl FindByPk for UserModel {
    open spec fn primary_key() -> Seq<char> {
        "id"@
    }

    fn primary_key_name() -> (r: String) {
        String::from_str("id")
    }
}

impl Find for UserModel {
    /// A user can be looked up by the texts of the profile. The password hash and the
    /// passcode reference are not among them.
    open spec fn queryable(column: Seq<char>) -> bool {
        ||| column == "firstname"@
        ||| column == "lastname"@
        ||| column == "middlename"@
        ||| column == "fullname"@
        ||| column == "username"@
        ||| column == "email"@
        ||| column == "phone_number"@
    }

    fn is_queryable(column: &str) -> (r: bool) {
        same_text(column, "firstname") || same_text(column, "lastname")
            || same_text(column, "middlename") || same_text(column, "fullname")
            || same_text(column, "username") || same_text(column, "email")
            || same_text(column, "phone_number")
    }
}

impl Create for UserModel {
    type Attributes = UserInformation;

    /// A user is created from a payload with a password.
    open spec fn creatable(fields: &UserInformation) -> bool {
        fields.password is Some
    }

    /// A statement inserts the user of a payload when it is the insertion of the
    /// payload's fields under a random identity and a hash of the payload's password.
    open spec fn inserts(fields: &UserInformation, statement: StatementView) -> bool {
        exists|id: u128, hash: Seq<char>|
            is_random_identity(id) && hashes(fields.password->0@, hash) && statement
                == #[trigger] insert_plan(*fields, id, hash)
    }

    /// Plans the insertion of a new user: generates the identity, hashes the password
    /// and binds the fields. It fails with `HashingFault` only.
    fn create_statement(fields: &UserInformation) -> (r: Result<Statement, StorageError>)
        ensures
            r matches Err(fault) ==> fault == StorageError::HashingFault,
    {
        let id = Identity::generate();
        let cleartext = fields.password.as_ref().unwrap();
        match hash_secret(cleartext.as_str()) {
            Ok(hash) => {
                let ghost hash_view = hash@;
                let statement = UserModel::insert_statement(fields, id, hash);
                assert(statement@ == insert_plan(*fields, id.value, hash_view));
                Ok(statement)
            },
            Err(fault) => Err(fault),
        }
    }
}

/// Neither the password hash nor the passcode reference of a user can be named in a
/// lookup.
pub proof fn lemma_secrets_are_not_queryable()
    ensures
        !UserModel::queryable("password"@),
        !UserModel::queryable("otp_id"@),
{
    reveal_strlit("password");
    reveal_strlit("otp_id");
    reveal_strlit("firstname");
    reveal_strlit("lastname");
    reveal_strlit("middlename");
    reveal_strlit("fullname");
    reveal_strlit("username");
    reveal_strlit("email");
    reveal_strlit("phone_number");
    assert("password"@.len() == 8 && "otp_id"@.len() == 6);
    assert("firstname"@.len() == 9 && "lastname"@.len() == 8 && "middlename"@.len() == 10);
    assert("fullname"@.len() == 8 && "username"@.len() == 8 && "email"@.len() == 5);
    assert("phone_number"@.len() == 12);
    assert("password"@[0] == 'p' && "lastname"@[0] == 'l' && "fullname"@[0] == 'f');
    assert("username"@[0] == 'u');
}

} // verus!
