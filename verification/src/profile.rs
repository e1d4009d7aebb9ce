//! The plain values of a user's profile: account status, gender, calendar dates and
//! points in time.

use vstd::prelude::*;
use vstd::string::StringExecFns;
use crate::text::same_text;

verus! {

/// The state of a user's account, which decides what the user may do.
#[derive(Debug, PartialEq, Eq, Structural, Clone, Copy)]
pub enum AccountStatus {
    Active,
    Inactive,
    Suspended,
    Deactivated,
}

/// The gender that a user states.
#[derive(Debug, PartialEq, Eq, Structural, Clone, Copy)]
pub enum UserGender {
    Male,
    Others,
    Female,
    Unspecified,
}

/// A day of the calendar.
#[derive(Debug, PartialEq, Eq, Structural, Clone, Copy)]
pub struct CalendarDate {
    pub year: i32,
    pub month: u32,
    pub day: u32,
}

/// A point in time without a time zone: whole seconds since 1970-01-01 00:00:00 and
/// the nanoseconds within the second.
#[derive(Debug, PartialEq, Eq, Structural, Clone, Copy)]
pub struct Timestamp {
    pub seconds: i64,
    pub nanoseconds: u32,
}

impl AccountStatus {
    /// The name under which storage knows the status.
    pub open spec fn label_text(self) -> Seq<char> {
        match self {
            AccountStatus::Active => "active"@,
            AccountStatus::Inactive => "inactive"@,
            AccountStatus::Suspended => "suspended"@,
            AccountStatus::Deactivated => "deactivated"@,
        }
    }

    /// The status that a name stands for; an unknown name stands for none.
    pub open spec fn labelled(s: Seq<char>) -> Option<AccountStatus> {
        if s == "active"@ {
            Some(AccountStatus::Active)
        } else if s == "inactive"@ {
            Some(AccountStatus::Inactive)
        } else if s == "suspended"@ {
            Some(AccountStatus::Suspended)
        } else if s == "deactivated"@ {
            Some(AccountStatus::Deactivated)
        } else {
            None
        }
    }

    /// The name under which storage knows the status.
    pub fn label(&self) -> (r: String)
        ensures
            r@ == self.label_text(),
    {
        match self {
            AccountStatus::Active => String::from_str("active"),
            AccountStatus::Inactive => String::from_str("inactive"),
            AccountStatus::Suspended => String::from_str("suspended"),
            AccountStatus::Deactivated => String::from_str("deactivated"),
        }
    }

    /// Reads a status from its name. An unknown name is refused, never replaced by a
    /// default.
    pub fn from_label(s: &str) -> (r: Option<AccountStatus>)
        ensures
            r == AccountStatus::labelled(s@),
    {
        if same_text(s, "active") {
            Some(AccountStatus::Active)
        } else if same_text(s, "inactive") {
            Some(AccountStatus::Inactive)
        } else if same_text(s, "suspended") {
            Some(AccountStatus::Suspended)
        } else if same_text(s, "deactivated") {
            Some(AccountStatus::Deactivated)
        } else {
            None
        }
    }

    /// A status is read back from its own name, and a name that is read is the name of
    /// the status it gave.
    pub proof fn lemma_label_round_trip(status: AccountStatus, s: Seq<char>)
        ensures
            AccountStatus::labelled(status.label_text()) == Some(status),
            AccountStatus::labelled(s) matches Some(read) ==> read.label_text() == s,
    {
        reveal_strlit("active");
        reveal_strlit("inactive");
        reveal_strlit("suspended");
        reveal_strlit("deactivated");
        assert("active"@.len() == 6 && "inactive"@.len() == 8);
        assert("suspended"@.len() == 9 && "deactivated"@.len() == 11);
    }
}

impl UserGender {
    /// The name under which storage knows the gender.
    pub open spec fn label_text(self) -> Seq<char> {
        match self {
            UserGender::Male => "male"@,
            UserGender::Others => "others"@,
            UserGender::Female => "female"@,
            UserGender::Unspecified => "unspecified"@,
        }
    }

    /// The gender that a name stands for; an unknown name stands for none.
    pub open spec fn labelled(s: Seq<char>) -> Option<UserGender> {
        if s == "male"@ {
            Some(UserGender::Male)
        } else if s == "others"@ {
            Some(UserGender::Others)
        } else if s == "female"@ {
            Some(UserGender::Female)
        } else if s == "unspecified"@ {
            Some(UserGender::Unspecified)
        } else {
            None
        }
    }

    /// The gender that an optional name stands for: `Unspecified` where there is no
    /// name, and none where the name is unknown.
    pub open spec fn labelled_or_default(s: Option<Seq<char>>) -> Option<UserGender> {
        match s {
            Some(name) => UserGender::labelled(name),
            None => Some(UserGender::Unspecified),
        }
    }

    /// The name under which storage knows the gender.
    pub fn label(&self) -> (r: String)
        ensures
            r@ == self.label_text(),
    {
        match self {
            UserGender::Male => String::from_str("male"),
            UserGender::Others => String::from_str("others"),
            UserGender::Female => String::from_str("female"),
            UserGender::Unspecified => String::from_str("unspecified"),
        }
    }

    /// Reads a gender from its name. An unknown name is refused.
    pub fn from_label(s: &str) -> (r: Option<UserGender>)
        ensures
            r == UserGender::labelled(s@),
    {
        if same_text(s, "male") {
            Some(UserGender::Male)
        } else if same_text(s, "others") {
            Some(UserGender::Others)
        } else if same_text(s, "female") {
            Some(UserGender::Female)
        } else if same_text(s, "unspecified") {
            Some(UserGender::Unspecified)
        } else {
            None
        }
    }

    /// Reads a gender from a name that may be absent: absent gives `Unspecified`, an
    /// unknown name is refused.
    pub fn from_optional_label(s: Option<&str>) -> (r: Option<UserGender>)
        ensures
            r == UserGender::labelled_or_default(
                match s {
                    Some(name) => Some(name@),
                    None => None,
                },
            ),
    {
        match s {
            Some(name) => UserGender::from_label(name),
            None => Some(UserGender::Unspecified),
        }
    }

    /// A gender is read back from its own name, and a name that is read is the name of
    /// the gender it gave.
    pub proof fn lemma_label_round_trip(gender: UserGender, s: Seq<char>)
        ensures
            UserGender::labelled(gender.label_text()) == Some(gender),
            UserGender::labelled(s) matches Some(read) ==> read.label_text() == s,
    {
        reveal_strlit("male");
        reveal_strlit("others");
        reveal_strlit("female");
        reveal_strlit("unspecified");
        assert("male"@.len() == 4 && "others"@.len() == 6);
        assert("female"@.len() == 6 && "unspecified"@.len() == 11);
        assert("others"@[0] == 'o' && "female"@[0] == 'f');
    }
}

impl Default for UserGender {
    /// A user who states no gender is `Unspecified`.
    fn default() -> (r: UserGender)
        ensures
            r == UserGender::Unspecified,
    {
        UserGender::Unspecified
    }
}

impl CalendarDate {
    /// The first day of 1970, which stands in for a date that was not given.
    pub open spec fn epoch() -> CalendarDate {
        CalendarDate { year: 1970, month: 1, day: 1 }
    }
}

impl Default for CalendarDate {
    /// The first day of 1970.
    fn default() -> (r: CalendarDate)
        ensures
            r == CalendarDate::epoch(),
    {
        CalendarDate { year: 1970, month: 1, day: 1 }
    }
}

} // verus!
