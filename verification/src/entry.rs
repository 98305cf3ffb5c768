//! The entries that a vault keeps, and the names under which their fields are
//! written.

use vstd::prelude::*;

verus! {

/// A field of a stored document. The name that a field has in JSON is given
/// here and nowhere else, so that it stays what it is when a field of a
/// struct is renamed.
#[derive(Clone, Copy, Debug, PartialEq, Eq, Structural)]
pub enum Field {
    Id,
    Website,
    Username,
    Password,
    Category,
    LastUpdated,
    Name,
    Issuer,
    Secret,
    Type,
    Algorithm,
    Digits,
    Period,
    Passwords,
    TwoFactorAccounts,
}

impl Field {
    /// The name of the field in JSON.
    pub open spec fn wire(self) -> Seq<char> {
        match self {
            Field::Id => "id"@,
            Field::Website => "website"@,
            Field::Username => "username"@,
            Field::Password => "password"@,
            Field::Category => "category"@,
            Field::LastUpdated => "lastUpdated"@,
            Field::Name => "name"@,
            Field::Issuer => "issuer"@,
            Field::Secret => "secret"@,
            Field::Type => "type"@,
            Field::Algorithm => "algorithm"@,
            Field::Digits => "digits"@,
            Field::Period => "period"@,
            Field::Passwords => "passwords"@,
            Field::TwoFactorAccounts => "two_factor_accounts"@,
        }
    }

    /// The name of the field in JSON.
    pub fn wire_name(self) -> (r: &'static str)
        ensures
            r@ == self.wire(),
    {
        match self {
            Field::Id => "id",
            Field::Website => "website",
            Field::Username => "username",
            Field::Password => "password",
            Field::Category => "category",
            Field::LastUpdated => "lastUpdated",
            Field::Name => "name",
            Field::Issuer => "issuer",
            Field::Secret => "secret",
            Field::Type => "type",
            Field::Algorithm => "algorithm",
            Field::Digits => "digits",
            Field::Period => "period",
            Field::Passwords => "passwords",
            Field::TwoFactorAccounts => "two_factor_accounts",
        }
    }

    /// No two fields share a name.
    pub proof fn wire_is_injective(a: Field, b: Field)
        requires
            a != b,
        ensures
            a.wire() != b.wire(),
    {
        reveal_strlit("id");
        reveal_strlit("website");
        reveal_strlit("username");
        reveal_strlit("password");
        reveal_strlit("category");
        reveal_strlit("lastUpdated");
        reveal_strlit("name");
        reveal_strlit("issuer");
        reveal_strlit("secret");
        reveal_strlit("type");
        reveal_strlit("algorithm");
        reveal_strlit("digits");
        reveal_strlit("period");
        reveal_strlit("passwords");
        reveal_strlit("two_factor_accounts");
        if a.wire().len() == b.wire().len() {
            assert(a.wire()[0] != b.wire()[0] || a.wire()[1] != b.wire()[1]);
        }
    }
}

/// A stored password.
#[derive(Clone, Debug, PartialEq, Eq)]
pub struct PasswordEntry {
    pub id: String,
    pub website: String,
    pub username: String,
    pub password: String,
    pub category: String,
    /// Written under the name `lastUpdated`.
    pub last_updated: String,
}

/// What a `PasswordEntry` holds.
pub ghost struct PasswordRecord {
    pub id: Seq<char>,
    pub website: Seq<char>,
    pub username: Seq<char>,
    pub password: Seq<char>,
    pub category: Seq<char>,
    pub last_updated: Seq<char>,
}

impl View for PasswordEntry {
    type V = PasswordRecord;

    open spec fn view(&self) -> PasswordRecord {
        PasswordRecord {
            id: self.id@,
            website: self.website@,
            username: self.username@,
            password: self.password@,
            category: self.category@,
            last_updated: self.last_updated@,
        }
    }
}

/// A stored one-time-password account.
#[derive(Clone, Debug, PartialEq, Eq)]
pub struct TwoFactorAccount {
    pub id: String,
    pub name: String,
    pub issuer: String,
    pub secret: String,
    /// Written under the name `type`.
    pub type_: String,
    pub algorithm: String,
    pub digits: u32,
    pub period: u32,
}

/// What a `TwoFactorAccount` holds.
pub ghost struct TwoFactorRecord {
    pub id: Seq<char>,
    pub name: Seq<char>,
    pub issuer: Seq<char>,
    pub secret: Seq<char>,
    pub type_: Seq<char>,
    pub algorithm: Seq<char>,
    pub digits: u32,
    pub period: u32,
}

impl View for TwoFactorAccount {
    type V = TwoFactorRecord;

    open spec fn view(&self) -> TwoFactorRecord {
        TwoFactorRecord {
            id: self.id@,
            name: self.name@,
            issuer: self.issuer@,
            secret: self.secret@,
            type_: self.type_@,
            algorithm: self.algorithm@,
            digits: self.digits,
            period: self.period,
        }
    }
}

/// Both collections of a vault, as one value.
#[derive(Clone, Debug, PartialEq, Eq)]
pub struct ExportData {
    pub passwords: Vec<PasswordEntry>,
    pub two_factor_accounts: Vec<TwoFactorAccount>,
}

/// What an `ExportData` holds.
pub ghost struct ExportRecord {
    pub passwords: Seq<PasswordRecord>,
    pub two_factor_accounts: Seq<TwoFactorRecord>,
}

/// What each entry of `list` holds, in order.
pub open spec fn password_views(list: Seq<PasswordEntry>) -> Seq<PasswordRecord> {
    Seq::new(list.len(), |i: int| list[i]@)
}

/// What each account of `list` holds, in order.
pub open spec fn account_views(list: Seq<TwoFactorAccount>) -> Seq<TwoFactorRecord> {
    Seq::new(list.len(), |i: int| list[i]@)
}

impl View for ExportData {
    type V = ExportRecord;

    open spec fn view(&self) -> ExportRecord {
        ExportRecord {
            passwords: password_views(self.passwords@),
            two_factor_accounts: account_views(self.two_factor_accounts@),
        }
    }
}

} // verus!
