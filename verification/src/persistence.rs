//! The storage operations that an entity can take part in: creating a record, finding
//! one by its primary key and finding one by the values of some of its columns.
//!
//! Nothing here talks to storage. Each operation is planned as a statement: a text
//! with numbered placeholders and the values bound to them. Whoever holds the
//! connection runs the statement and hands back a reply, which is then read as the
//! operation's result.

use vstd::prelude::*;
use vstd::string::StringExecFns;
use crate::identity::{parsed_identity, Identity};
use crate::profile::{CalendarDate, UserGender};
use crate::text::{decimal, render_decimal};

verus! {

/// Why a storage operation gave no record.
#[derive(Debug, PartialEq, Eq, Structural, Clone, Copy)]
pub enum StorageError {
    /// No record matched.
    NotFound,
    /// A record with the same unique key exists already, so nothing was inserted.
    Conflict,
    /// The text given as a primary key is no well-formed identity.
    InvalidIdentity,
    /// The caller's input cannot be made into a statement.
    Invalid,
    /// Storage could not be reached or failed.
    StorageUnavailable,
    /// The secret could not be hashed.
    HashingFault,
}

/// What storage answered to a statement that returns at most one record.
#[derive(Debug, PartialEq, Eq)]
pub enum StorageReply<E> {
    /// The record that the statement returned.
    Row(E),
    /// The statement ran and returned no record.
    NoRow,
    /// The statement could not be run.
    Unavailable,
}

/// A value bound to a placeholder of a statement.
#[derive(Debug, Clone, PartialEq, Eq)]
pub enum Param {
    Identity(Identity),
    Gender(UserGender),
    Text(String),
    Date(CalendarDate),
}

/// A bound value as contracts see it.
pub enum ParamView {
    Identity(u128),
    Gender(UserGender),
    Text(Seq<char>),
    Date(CalendarDate),
}

impl View for Param {
    type V = ParamView;

    open spec fn view(&self) -> ParamView {
        match *self {
            Param::Identity(id) => ParamView::Identity(id.value),
            Param::Gender(gender) => ParamView::Gender(gender),
            Param::Text(text) => ParamView::Text(text@),
            Param::Date(date) => ParamView::Date(date),
        }
    }
}

/// A statement for storage: its text, in which `$1`, `$2` and so on stand for values,
/// and the values in that order. A value never becomes part of the text.
#[derive(Debug, Clone, PartialEq, Eq)]
pub struct Statement {
    pub text: String,
    pub params: Vec<Param>,
}

/// A statement as contracts see it.
pub struct StatementView {
    pub text: Seq<char>,
    pub params: Seq<ParamView>,
}

impl View for Statement {
    type V = StatementView;

    open spec fn view(&self) -> StatementView {
        StatementView {
            text: self.text@,
            params: Seq::new(self.params@.len(), |i: int| self.params@[i]@),
        }
    }
}

/// What a caller's value for a column is: a text, or anything else.
#[derive(Debug, Clone, PartialEq, Eq)]
pub enum FieldValue {
    Text(String),
    NotText,
}

/// One constraint of a lookup: the named column must hold the value.
#[derive(Debug, Clone, PartialEq, Eq)]
pub struct Predicate {
    pub field: String,
    pub value: FieldValue,
}

/// An entity: a kind of record with a table of its own.
pub trait Entity {
    /// The name of the entity's table.
    spec fn table() -> Seq<char>;

    /// The name of the entity's table.
    fn table_name() -> (r: String)
        ensures
            r@ == Self::table(),
    ;
}

/// An entity that can be found by its primary key.
pub trait FindByPk: Entity {
    /// The name of the column that holds the primary key.
    spec fn primary_key() -> Seq<char>;

    /// The name of the column that holds the primary key.
    fn primary_key_name() -> (r: String)
        ensures
            r@ == Self::primary_key(),
    ;
}

/// An entity that can be found by the values of some of its columns. The columns
/// that a caller may name are listed; every other name is refused.
pub trait Find: Entity {
    /// Whether a caller may constrain the column of this name.
    spec fn queryable(column: Seq<char>) -> bool;

    /// Whether a caller may constrain the column of this name.
    fn is_queryable(column: &str) -> (r: bool)
        ensures
            r == Self::queryable(column@),
    ;
}

/// An entity that can be created from a payload of attributes.
pub trait Create: Entity + Sized {
    /// The payload from which a record is created.
    type Attributes;

    /// The payloads from which a statement can be planned.
    spec fn creatable(fields: &Self::Attributes) -> bool;

    /// Whether a statement inserts the record that the payload describes.
    spec fn inserts(fields: &Self::Attributes, statement: StatementView) -> bool;

    /// Plans the statement that inserts a new record.
    fn create_statement(fields: &Self::Attributes) -> (r: Result<Statement, StorageError>)
        requires
            Self::creatable(fields),
        ensures
            r matches Ok(statement) ==> Self::inserts(fields, statement@),
    ;
}

/// One condition of a lookup: the column, an equals sign and the numbered placeholder.
pub open spec fn condition(column: Seq<char>, position: nat) -> Seq<char> {
    column + " = $"@ + decimal(position)
}

/// The conditions on the given columns, numbered from 1 and joined by `AND`.
pub open spec fn conjunction(columns: Seq<Seq<char>>) -> Seq<char>
    decreases columns.len(),
{
    if columns.len() == 0 {
        Seq::empty()
    } else if columns.len() == 1 {
        condition(columns[0], 1)
    } else {
        conjunction(columns.drop_last()) + " AND "@ + condition(columns.last(), columns.len())
    }
}

/// The text that selects the records of a table which meet a condition on each of the
/// given columns.
pub open spec fn select_text(table: Seq<char>, columns: Seq<Seq<char>>) -> Seq<char> {
    "SELECT * FROM "@ + table + " WHERE "@ + conjunction(columns)
}

/// The columns that a list of constraints names, in order.
pub open spec fn named_columns(fields: Seq<Predicate>) -> Seq<Seq<char>> {
    Seq::new(fields.len(), |i: int| fields[i].field@)
}

/// The values of a list of constraints as bound values, in order.
pub open spec fn bound_values(fields: Seq<Predicate>) -> Seq<ParamView> {
    Seq::new(
        fields.len(),
        |i: int|
            match fields[i].value {
                FieldValue::Text(text) => ParamView::Text(text@),
                FieldValue::NotText => ParamView::Text(Seq::empty()),
            },
    )
}

/// Whether one constraint can be part of a lookup on an entity: its column is one that
/// callers may name, and its value is a text.
pub open spec fn acceptable_predicate<E: Find>(predicate: Predicate) -> bool {
    E::queryable(predicate.field@) && predicate.value is Text
}

/// Whether a payload can be made into a lookup on an entity: it is a list of
/// constraints, at least one, and each of them is acceptable.
pub open spec fn acceptable<E: Find>(fields: Option<Vec<Predicate>>) -> bool {
    fields matches Some(list) && list@.len() > 0 && forall|i: int|
        0 <= i < list@.len() ==> acceptable_predicate::<E>(#[trigger] list@[i])
}

/// The lookup that a list of constraints asks for: the text is made of the table and
/// the columns alone, and each value is bound to the placeholder of its column.
pub open spec fn find_plan(table: Seq<char>, fields: Seq<Predicate>) -> StatementView {
    StatementView {
        text: select_text(table, named_columns(fields)),
        params: bound_values(fields),
    }
}

/// The lookup of the record with a given primary key: the one condition is on the
/// column of the primary key, and the identity is bound to its placeholder.
pub open spec fn lookup_plan(table: Seq<char>, primary_key: Seq<char>, id: u128) -> StatementView {
    StatementView {
        text: select_text(table, seq![primary_key]),
        params: seq![ParamView::Identity(id)],
    }
}

/// A payload that constrains a column which callers may not name is not acceptable,
/// whatever else it holds.
pub proof fn lemma_unknown_field_is_refused<E: Find>(fields: Vec<Predicate>, i: int)
    requires
        0 <= i < fields@.len(),
        !E::queryable(fields@[i].field@),
    ensures
        !acceptable::<E>(Some(fields)),
{
    assert(!acceptable_predicate::<E>(fields@[i]));
}

/// The text of a lookup depends on the table and on the names of the constrained
/// columns alone: two lists of constraints on the same columns give the same text,
/// whatever their values hold. Each value is bound, unchanged, to the placeholder of
/// its column.
pub proof fn lemma_values_do_not_shape_the_text(
    table: Seq<char>,
    a: Seq<Predicate>,
    b: Seq<Predicate>,
)
    requires
        named_columns(a) == named_columns(b),
    ensures
        find_plan(table, a).text == find_plan(table, b).text,
        find_plan(table, a).params.len() == a.len(),
        forall|i: int|
            0 <= i < a.len() ==> (a[i].value matches FieldValue::Text(text) ==> #[trigger] find_plan(
                table,
                a,
            ).params[i] == ParamView::Text(text@)),
{
}

/// Plans the lookup of one record by the values of some columns.
///
/// The payload is refused as `Invalid`, before anything could reach storage, unless it
/// is a list of at least one constraint, each on a column that callers may name and with
/// a text as its value. Otherwise the statement compares each named column with a
/// placeholder and binds the value to it.
pub fn find_statement<E: Find>(fields: &Option<Vec<Predicate>>) -> (r: Result<
    Statement,
    StorageError,
>)
    ensures
        acceptable::<E>(*fields) ==> (r matches Ok(statement) && statement@ == find_plan(
            E::table(),
            fields->0@,
        )),
        !acceptable::<E>(*fields) ==> r == Err::<Statement, StorageError>(StorageError::Invalid),
{
    let list = match fields {
        Some(list) => list,
        None => {
            return Err(StorageError::Invalid);
        },
    };
    if list.len() == 0 {
        return Err(StorageError::Invalid);
    }
    let mut text = String::from_str("SELECT * FROM ");
    let table = E::table_name();
    text.append(table.as_str());
    text.append(" WHERE ");
    let mut params: Vec<Param> = Vec::new();
    let ghost columns = named_columns(list@);
    let ghost values = bound_values(list@);
    let mut i: usize = 0;
    assert(columns.take(0) =~= Seq::<Seq<char>>::empty());
    assert(text@ =~= select_text(E::table(), columns.take(0)));
    while i < list.len()
        invariant
            0 <= i <= list.len(),
            list.len() > 0,
            *fields == Some(*list),
            columns == named_columns(list@),
            values == bound_values(list@),
            text@ == select_text(E::table(), columns.take(i as int)),
            params@.len() == i,
            forall|j: int| 0 <= j < i ==> (#[trigger] params@[j])@ == values[j],
            forall|j: int| 0 <= j < i ==> acceptable_predicate::<E>(#[trigger] list@[j]),
        decreases list.len() - i,
    {
        let predicate = &list[i];
        if !E::is_queryable(predicate.field.as_str()) {
            assert(!acceptable_predicate::<E>(list@[i as int]));
            return Err(StorageError::Invalid);
        }
        let value = match &predicate.value {
            FieldValue::Text(value) => value.clone(),
            FieldValue::NotText => {
                assert(!acceptable_predicate::<E>(list@[i as int]));
                return Err(StorageError::Invalid);
            },
        };
        if i > 0 {
            text.append(" AND ");
        }
        text.append(predicate.field.as_str());
        text.append(" = $");
        let number = render_decimal(i + 1);
        text.append(number.as_str());
        params.push(Param::Text(value));
        proof {
            let before = columns.take(i as int);
            let after = columns.take(i + 1);
            assert(after.drop_last() =~= before);
            assert(after.last() == list@[i as int].field@);
            assert(text@ =~= select_text(E::table(), after));
        }
        i = i + 1;
    }
    assert(columns.take(i as int) =~= columns);
    let statement = Statement { text, params };
    assert(statement@.params =~= values);
    Ok(statement)
}

/// Plans the lookup of the record whose primary key a parser read, or refuses with
/// `InvalidIdentity` where the parser read none.
pub fn lookup_statement<E: FindByPk>(id: Option<Identity>) -> (r: Result<Statement, StorageError>)
    ensures
        match id {
            Some(id) => (r matches Ok(statement) && statement@ == lookup_plan(
                E::table(),
                E::primary_key(),
                id.value,
            )),
            None => r == Err::<Statement, StorageError>(StorageError::InvalidIdentity),
        },
{
    match id {
        Some(id) => {
            let mut text = String::from_str("SELECT * FROM ");
            let table = E::table_name();
            text.append(table.as_str());
            text.append(" WHERE ");
            let column = E::primary_key_name();
            text.append(column.as_str());
            text.append(" = $");
            let number = render_decimal(1);
            text.append(number.as_str());
            let mut params: Vec<Param> = Vec::new();
            params.push(Param::Identity(id));
            let statement = Statement { text, params };
            assert(statement@.params =~= seq![ParamView::Identity(id.value)]);
            assert(statement@.text =~= select_text(E::table(), seq![E::primary_key()]));
            Ok(statement)
        },
        None => Err(StorageError::InvalidIdentity),
    }
}

/// Plans the lookup of one record by its primary key, given as text.
///
/// A text that is no well-formed identity is refused as `InvalidIdentity`, before
/// anything could reach storage.
pub fn find_by_pk_statement<E: FindByPk>(id: &str) -> (r: Result<Statement, StorageError>)
    ensures
        match parsed_identity(id@) {
            Some(value) => (r matches Ok(statement) && statement@ == lookup_plan(
                E::table(),
                E::primary_key(),
                value,
            )),
            None => r == Err::<Statement, StorageError>(StorageError::InvalidIdentity),
        },
{
    lookup_statement::<E>(Identity::parse(id))
}

/// Reads the reply to an insertion. A reply without a record means that a record with
/// the same unique key was there already: the insertion did nothing.
pub fn created<E>(reply: StorageReply<E>) -> (r: Result<E, StorageError>)
    ensures
        r == match reply {
            StorageReply::Row(entity) => Ok::<E, StorageError>(entity),
            StorageReply::NoRow => Err(StorageError::Conflict),
            StorageReply::Unavailable => Err(StorageError::StorageUnavailable),
        },
{
    match reply {
        StorageReply::Row(entity) => Ok(entity),
        StorageReply::NoRow => Err(StorageError::Conflict),
        StorageReply::Unavailable => Err(StorageError::StorageUnavailable),
    }
}

/// Reads the reply to a lookup. A reply without a record means that none matched.
pub fn found<E>(reply: StorageReply<E>) -> (r: Result<E, StorageError>)
    ensures
        r == match reply {
            StorageReply::Row(entity) => Ok::<E, StorageError>(entity),
            StorageReply::NoRow => Err(StorageError::NotFound),
            StorageReply::Unavailable => Err(StorageError::StorageUnavailable),
        },
{
    match reply {
        StorageReply::Row(entity) => Ok(entity),
        StorageReply::NoRow => Err(StorageError::NotFound),
        StorageReply::Unavailable => Err(StorageError::StorageUnavailable),
    }
}

} // verus!
