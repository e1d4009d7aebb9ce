use user_accounts::identity::Identity;
use user_accounts::persistence::{
    created, find_by_pk_statement, find_statement, found, lookup_statement, Create, Entity, Find,
    FindByPk, FieldValue, Param, Predicate, Statement, StorageError, StorageReply,
};
use user_accounts::profile::{CalendarDate, UserGender};
use user_accounts::users::{RegistrationError, UserInformation, UserModel};
use user_accounts::validation::{Field, Rule, Violation, ViolationSet};

fn text(field: &str, value: &str) -> Predicate {
    Predicate { field: field.to_string(), value: FieldValue::Text(value.to_string()) }
}

fn gen_empty_user() -> UserInformation {
    UserInformation {
        firstname: None,
        lastname: None,
        middlename: None,
        fullname: None,
        username: None,
        email: None,
        account_status: None,
        date_of_birth: None,
        gender: None,
        avatar: None,
        phone_number: None,
        password: None,
        created_at: None,
        updated_at: None,
        last_available_at: None,
    }
}

fn gen_valid_user() -> UserInformation {
    UserInformation {
        email: Some("a@b.co".to_string()),
        firstname: Some("A".to_string()),
        lastname: Some("B".to_string()),
        middlename: Some("C".to_string()),
        fullname: Some("A B C".to_string()),
        username: Some("ab".to_string()),
        password: Some("password1".to_string()),
        phone_number: Some("+14155550000".to_string()),
        ..gen_empty_user()
    }
}

fn stored(id: Identity, password: String) -> UserModel {
    UserModel {
        id,
        firstname: Some("A".to_string()),
        lastname: Some("B".to_string()),
        middlename: Some("C".to_string()),
        fullname: Some("A B C".to_string()),
        username: Some("ab".to_string()),
        email: Some("a@b.co".to_string()),
        account_status: None,
        date_of_birth: None,
        gender: Some(UserGender::Unspecified),
        avatar: None,
        phone_number: Some("+14155550000".to_string()),
        password: Some(password),
        created_at: None,
        updated_at: None,
        otp_id: None,
        last_available_at: None,
    }
}

const INSERT: &str = "INSERT INTO user_information (id, gender, firstname, lastname, middlename, fullname, username, email, date_of_birth, avatar, phone_number, password) VALUES ($1, $2, NULLIF($3, ''), NULLIF($4, ''), NULLIF($5, ''), NULLIF($6, ''), NULLIF($7, ''), $8, $9, NULLIF($10, ''), NULLIF($11, ''), NULLIF($12, '')) ON CONFLICT (email) DO NOTHING RETURNING *";

#[test]
fn lookup_by_email_binds_the_value() {
    let statement = find_statement::<UserModel>(&Some(vec![text("email", "a@b.co")])).unwrap();
    assert_eq!(statement.text, "SELECT * FROM user_information WHERE email = $1");
    assert_eq!(statement.params, vec![Param::Text("a@b.co".to_string())]);
}

#[test]
fn lookup_by_several_columns_is_a_conjunction() {
    let fields = vec![text("firstname", "A"), text("lastname", "B"), text("username", "ab")];
    let statement = find_statement::<UserModel>(&Some(fields)).unwrap();
    assert_eq!(
        statement.text,
        "SELECT * FROM user_information WHERE firstname = $1 AND lastname = $2 AND username = $3"
    );
    assert_eq!(
        statement.params,
        vec![
            Param::Text("A".to_string()),
            Param::Text("B".to_string()),
            Param::Text("ab".to_string()),
        ]
    );
}

#[test]
fn placeholders_are_numbered_in_decimal() {
    let mut fields = Vec::new();
    for _ in 0..11 {
        fields.push(text("email", "a@b.co"));
    }
    let statement = find_statement::<UserModel>(&Some(fields)).unwrap();
    assert!(statement.text.ends_with("email = $9 AND email = $10 AND email = $11"));
    assert_eq!(statement.params.len(), 11);
}

#[test]
fn every_queryable_column_is_accepted() {
    for column in
        ["firstname", "lastname", "middlename", "fullname", "username", "email", "phone_number"]
    {
        assert!(UserModel::is_queryable(column));
        let statement = find_statement::<UserModel>(&Some(vec![text(column, "x")])).unwrap();
        assert_eq!(
            statement.text,
            format!("SELECT * FROM user_information WHERE {} = $1", column)
        );
    }
}

#[test]
fn unknown_field_is_refused() {
    let fields = vec![text("email", "a@b.co"), text("nickname", "ab")];
    assert_eq!(find_statement::<UserModel>(&Some(fields)), Err(StorageError::Invalid));
    assert!(!UserModel::is_queryable("nickname"));
    assert!(!UserModel::is_queryable("Email"));
    assert!(!UserModel::is_queryable(""));
}

#[test]
fn secret_columns_are_refused() {
    for column in ["password", "otp_id"] {
        assert!(!UserModel::is_queryable(column));
        assert_eq!(
            find_statement::<UserModel>(&Some(vec![text(column, "x")])),
            Err(StorageError::Invalid)
        );
    }
}

#[test]
fn crafted_field_name_is_refused() {
    let fields = vec![text("email = '' OR 1 = 1; --", "x")];
    assert_eq!(find_statement::<UserModel>(&Some(fields)), Err(StorageError::Invalid));
}

#[test]
fn crafted_value_stays_a_value() {
    let crafted = "' OR 1 = 1; DROP TABLE user_information; --";
    let plain = find_statement::<UserModel>(&Some(vec![text("email", "a@b.co")])).unwrap();
    let attack = find_statement::<UserModel>(&Some(vec![text("email", crafted)])).unwrap();
    assert_eq!(attack.text, plain.text);
    assert_eq!(attack.text, "SELECT * FROM user_information WHERE email = $1");
    assert_eq!(attack.params, vec![Param::Text(crafted.to_string())]);
}

#[test]
fn empty_payload_is_refused() {
    assert_eq!(find_statement::<UserModel>(&Some(vec![])), Err(StorageError::Invalid));
}

#[test]
fn payload_that_is_no_list_is_refused() {
    assert_eq!(find_statement::<UserModel>(&None), Err(StorageError::Invalid));
}

#[test]
fn value_that_is_no_text_is_refused() {
    let fields = vec![
        text("email", "a@b.co"),
        Predicate { field: "username".to_string(), value: FieldValue::NotText },
    ];
    assert_eq!(find_statement::<UserModel>(&Some(fields)), Err(StorageError::Invalid));
}

#[test]
fn lookup_by_primary_key_binds_the_identity() {
    let statement =
        find_by_pk_statement::<UserModel>("550e8400-e29b-41d4-a716-446655440000").unwrap();
    assert_eq!(statement.text, "SELECT * FROM user_information WHERE id = $1");
    assert_eq!(
        statement.params,
        vec![Param::Identity(Identity { value: 0x550e8400_e29b_41d4_a716_446655440000 })]
    );
}

#[test]
fn malformed_primary_key_is_refused() {
    assert_eq!(find_by_pk_statement::<UserModel>("42"), Err(StorageError::InvalidIdentity));
    assert_eq!(find_by_pk_statement::<UserModel>(""), Err(StorageError::InvalidIdentity));
    assert_eq!(
        find_by_pk_statement::<UserModel>("' OR 1 = 1; --"),
        Err(StorageError::InvalidIdentity)
    );
}

#[test]
fn lookup_reads_the_parsed_identity() {
    assert_eq!(lookup_statement::<UserModel>(None), Err(StorageError::InvalidIdentity));
    assert_eq!(
        lookup_statement::<UserModel>(Some(Identity { value: 1 })),
        Ok(Statement {
            text: "SELECT * FROM user_information WHERE id = $1".to_string(),
            params: vec![Param::Identity(Identity { value: 1 })],
        })
    );
}

#[test]
fn reply_to_an_insertion_is_read() {
    assert_eq!(created(StorageReply::Row(5)), Ok(5));
    assert_eq!(created::<u8>(StorageReply::NoRow), Err(StorageError::Conflict));
    assert_eq!(created::<u8>(StorageReply::Unavailable), Err(StorageError::StorageUnavailable));
}

#[test]
fn reply_to_a_lookup_is_read() {
    assert_eq!(found(StorageReply::Row(5)), Ok(5));
    assert_eq!(found::<u8>(StorageReply::NoRow), Err(StorageError::NotFound));
    assert_eq!(found::<u8>(StorageReply::Unavailable), Err(StorageError::StorageUnavailable));
}

#[test]
fn user_table_is_named() {
    assert_eq!(UserModel::table_name(), "user_information");
    assert_eq!(UserModel::primary_key_name(), "id");
}

#[test]
fn insertion_binds_every_column() {
    let fields = UserInformation {
        gender: Some(UserGender::Female),
        date_of_birth: Some(CalendarDate { year: 1990, month: 5, day: 17 }),
        avatar: Some("https://example.com/a.png".to_string()),
        email: Some("  a@b.co \n".to_string()),
        ..gen_valid_user()
    };
    let statement =
        UserModel::insert_statement(&fields, Identity { value: 11 }, "$2b$12$hash".to_string());
    assert_eq!(statement.text, INSERT);
    assert_eq!(
        statement.params,
        vec![
            Param::Identity(Identity { value: 11 }),
            Param::Gender(UserGender::Female),
            Param::Text("A".to_string()),
            Param::Text("B".to_string()),
            Param::Text("C".to_string()),
            Param::Text("A B C".to_string()),
            Param::Text("ab".to_string()),
            Param::Text("a@b.co".to_string()),
            Param::Date(CalendarDate { year: 1990, month: 5, day: 17 }),
            Param::Text("https://example.com/a.png".to_string()),
            Param::Text("+14155550000".to_string()),
            Param::Text("$2b$12$hash".to_string()),
        ]
    );
}

#[test]
fn insertion_binds_defaults_for_absent_fields() {
    let statement =
        UserModel::insert_statement(&gen_empty_user(), Identity { value: 3 }, "h".to_string());
    assert_eq!(statement.text, INSERT);
    assert_eq!(
        statement.params,
        vec![
            Param::Identity(Identity { value: 3 }),
            Param::Gender(UserGender::Unspecified),
            Param::Text("".to_string()),
            Param::Text("".to_string()),
            Param::Text("".to_string()),
            Param::Text("".to_string()),
            Param::Text("".to_string()),
            Param::Text("".to_string()),
            Param::Date(CalendarDate { year: 1970, month: 1, day: 1 }),
            Param::Text("".to_string()),
            Param::Text("".to_string()),
            Param::Text("h".to_string()),
        ]
    );
}

#[test]
fn insertion_tolerates_a_taken_email() {
    assert!(INSERT.contains("ON CONFLICT (email) DO NOTHING RETURNING *"));
    let statement =
        UserModel::insert_statement(&gen_valid_user(), Identity { value: 3 }, "h".to_string());
    assert!(statement.text.contains("ON CONFLICT (email) DO NOTHING"));
}

#[test]
fn valid_attributes_are_created() {
    let fields = gen_valid_user();
    assert_eq!(fields.validate(), Ok(()));
    let statement = UserModel::create_statement(&fields).unwrap();
    assert_eq!(statement.text, INSERT);
    assert_eq!(statement.params.len(), 12);
    let id = match &statement.params[0] {
        Param::Identity(id) => *id,
        other => panic!("the first value is {:?}", other),
    };
    assert!(id.is_random());
    assert_eq!(statement.params[7], Param::Text("a@b.co".to_string()));
    let hash = match &statement.params[11] {
        Param::Text(hash) => hash.clone(),
        other => panic!("the last value is {:?}", other),
    };
    assert_ne!(hash, "password1");
    for param in &statement.params {
        assert_ne!(*param, Param::Text("password1".to_string()));
    }
    let row = stored(id, hash);
    let user = created(StorageReply::Row(row.clone())).unwrap();
    assert_eq!(user.id, id);
    assert_eq!(user.email, Some("a@b.co".to_string()));
    assert_ne!(user.password, Some("password1".to_string()));
    assert!(user.verify_pswd_hash("password1"));
}

#[test]
fn each_creation_has_an_identity_of_its_own() {
    let fields = gen_valid_user();
    let first = UserModel::create_statement(&fields).unwrap();
    let second = UserModel::create_statement(&fields).unwrap();
    assert_ne!(first.params[0], second.params[0]);
    assert_ne!(first.params[11], second.params[11]);
}

#[test]
fn taken_email_gives_a_conflict() {
    assert_eq!(created::<UserModel>(StorageReply::NoRow), Err(StorageError::Conflict));
}

#[test]
fn absent_record_is_not_found() {
    let statement =
        find_by_pk_statement::<UserModel>("550e8400-e29b-41d4-a716-446655440000").unwrap();
    assert_eq!(statement.params.len(), 1);
    assert_eq!(found::<UserModel>(StorageReply::NoRow), Err(StorageError::NotFound));
}

#[test]
fn registration_plans_the_insertion_of_a_valid_payload() {
    let statement = UserModel::registration_statement(&gen_valid_user()).unwrap();
    assert_eq!(statement.text, INSERT);
    assert_eq!(statement.params.len(), 12);
    assert_eq!(statement.params[2], Param::Text("A".to_string()));
    assert_eq!(statement.params[7], Param::Text("a@b.co".to_string()));
    assert_ne!(statement.params[11], Param::Text("password1".to_string()));
}

#[test]
fn registration_refuses_an_invalid_payload() {
    let fields = UserInformation { password: Some("short".to_string()), ..gen_valid_user() };
    let expected = ViolationSet {
        violations: vec![Violation { field: Field::Password, rule: Rule::Length { min: 8 } }],
    };
    assert_eq!(
        UserModel::registration_statement(&fields),
        Err(RegistrationError::ValidationFailed(expected))
    );
}

#[test]
fn registration_refuses_a_payload_without_password() {
    let fields = UserInformation { password: None, ..gen_valid_user() };
    let expected = ViolationSet {
        violations: vec![Violation { field: Field::Password, rule: Rule::Required }],
    };
    assert_eq!(
        UserModel::registration_statement(&fields),
        Err(RegistrationError::ValidationFailed(expected))
    );
}
