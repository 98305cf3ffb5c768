//! The vault: two files, one for each collection, and the operations on them.
//!
//! A `Vault` holds what the two files hold. Reading them from a directory and
//! writing them back is the caller's part; everything between is here.

use crate::codec::{
    accounts_in, decode_accounts, decode_passwords, encode_accounts, encode_export,
    encode_passwords, export_in, passwords_in, DecodeError, Fault,
};
use crate::entry::{
    account_views, password_views, ExportData, ExportRecord, PasswordEntry, PasswordRecord,
    TwoFactorAccount, TwoFactorRecord,
};
use vstd::prelude::*;
use vstd::string::StringExecFns;

verus! {

/// One of the two collections of a vault.
#[derive(Clone, Copy, Debug, PartialEq, Eq, Structural)]
pub enum CollectionKind {
    Passwords,
    TwoFactorAccounts,
}

impl CollectionKind {
    /// The name of the collection's file.
    pub open spec fn file(self) -> Seq<char> {
        match self {
            CollectionKind::Passwords => "passwords.json"@,
            CollectionKind::TwoFactorAccounts => "two_factor_accounts.json"@,
        }
    }

    /// The name of the collection's file in the vault's directory.
    pub fn file_name(self) -> (r: &'static str)
        ensures
            r@ == self.file(),
    {
        match self {
            CollectionKind::Passwords => "passwords.json",
            CollectionKind::TwoFactorAccounts => "two_factor_accounts.json",
        }
    }
}

/// Why an operation on the vault failed.
#[derive(Clone, Debug, PartialEq, Eq)]
pub enum VaultError {
    /// The host names no directory for the application.
    Environment,
    /// The file system refused, with its message.
    Io(String),
    /// A collection could not be written as text, with the printer's message.
    Serialization(String),
    /// The collection's file is not JSON, with the parser's message.
    CorruptStore(CollectionKind, String),
    /// The file is JSON, of the wrong shape.
    Deserialization(Fault),
}

impl VaultError {
    /// The error as one line of text.
    pub open spec fn describe(self) -> Seq<char> {
        match self {
            VaultError::Environment => "Failed to get app directory"@,
            VaultError::Io(message) => message@,
            VaultError::Serialization(message) => message@,
            VaultError::CorruptStore(kind, message) => kind.file() + ": "@ + message@,
            VaultError::Deserialization(fault) => fault.describe(),
        }
    }

    /// The error as one line of text, as it is shown to the user.
    pub fn message(&self) -> (r: String)
        ensures
            r@ == self.describe(),
    {
        match self {
            VaultError::Environment => "Failed to get app directory".to_owned(),
            VaultError::Io(message) => message.clone(),
            VaultError::Serialization(message) => message.clone(),
            VaultError::CorruptStore(kind, message) => {
                let mut line = kind.file_name().to_owned();
                line.append(": ");
                line.append(message.as_str());
                line
            },
            VaultError::Deserialization(fault) => fault.message(),
        }
    }
}

/// What the two files of a vault hold: `None` for a file that is not there.
#[derive(Clone, Debug, PartialEq, Eq)]
pub struct Vault {
    pub passwords: Option<String>,
    pub two_factor_accounts: Option<String>,
}

/// What a `Vault` holds.
pub ghost struct VaultImage {
    pub passwords: Option<Seq<char>>,
    pub two_factor_accounts: Option<Seq<char>>,
}

impl View for Vault {
    type V = VaultImage;

    open spec fn view(&self) -> VaultImage {
        VaultImage {
            passwords: match self.passwords {
                Some(text) => Some(text@),
                None => None,
            },
            two_factor_accounts: match self.two_factor_accounts {
                Some(text) => Some(text@),
                None => None,
            },
        }
    }
}

impl VaultImage {
    /// The text of the collection's file, and `None` where it is not there.
    pub open spec fn file(self, kind: CollectionKind) -> Option<Seq<char>> {
        match kind {
            CollectionKind::Passwords => self.passwords,
            CollectionKind::TwoFactorAccounts => self.two_factor_accounts,
        }
    }

    /// This vault with `text` as the whole of the collection's file.
    pub open spec fn with_file(self, kind: CollectionKind, text: Seq<char>) -> VaultImage {
        match kind {
            CollectionKind::Passwords => VaultImage { passwords: Some(text), ..self },
            CollectionKind::TwoFactorAccounts => VaultImage {
                two_factor_accounts: Some(text),
                ..self
            },
        }
    }

    /// What loading the passwords gives: the empty collection where the file
    /// is not there, else what the file holds; `None` where it is not JSON.
    pub open spec fn loaded_passwords(self) -> Option<Result<Seq<PasswordRecord>, Fault>> {
        match self.passwords {
            None => Some(Ok(Seq::empty())),
            Some(text) => passwords_in(text),
        }
    }

    /// What loading the accounts gives: the empty collection where the file
    /// is not there, else what the file holds; `None` where it is not JSON.
    pub open spec fn loaded_accounts(self) -> Option<Result<Seq<TwoFactorRecord>, Fault>> {
        match self.two_factor_accounts {
            None => Some(Ok(Seq::empty())),
            Some(text) => accounts_in(text),
        }
    }

    /// The passwords file is there and holds `list`.
    pub open spec fn holds_passwords(self, list: Seq<PasswordRecord>) -> bool {
        self.passwords matches Some(text) && passwords_in(text) == Some(
            Ok::<Seq<PasswordRecord>, Fault>(list),
        )
    }

    /// The accounts file is there and holds `list`.
    pub open spec fn holds_accounts(self, list: Seq<TwoFactorRecord>) -> bool {
        self.two_factor_accounts matches Some(text) && accounts_in(text) == Some(
            Ok::<Seq<TwoFactorRecord>, Fault>(list),
        )
    }

    /// `after` is this vault once `list` was saved as its passwords.
    pub open spec fn saves_passwords(self, list: Seq<PasswordRecord>, after: VaultImage) -> bool {
        after.holds_passwords(list) && after.two_factor_accounts == self.two_factor_accounts
    }

    /// `after` is this vault once `list` was saved as its accounts.
    pub open spec fn saves_accounts(self, list: Seq<TwoFactorRecord>, after: VaultImage) -> bool {
        after.holds_accounts(list) && after.passwords == self.passwords
    }

    /// `text` is an export of this vault: a bundle of what loading its two
    /// collections gives.
    pub open spec fn exports(self, text: Seq<char>) -> bool {
        &&& self.loaded_passwords() matches Some(Ok(passwords))
        &&& self.loaded_accounts() matches Some(Ok(accounts))
        &&& export_in(text) == Some(
            Ok::<ExportRecord, Fault>(ExportRecord { passwords, two_factor_accounts: accounts }),
        )
    }

    /// `after` is this vault once `data` was imported.
    pub open spec fn imports(self, data: ExportRecord, after: VaultImage) -> bool {
        after.holds_passwords(data.passwords) && after.holds_accounts(data.two_factor_accounts)
    }
}

/// `e` is the failure of loading the collection `kind` from a file that
/// holds `held`.
pub open spec fn load_fails_with<T>(
    held: Option<Result<T, Fault>>,
    kind: CollectionKind,
    e: VaultError,
) -> bool {
    match e {
        VaultError::CorruptStore(file, _) => file == kind && held is None,
        VaultError::Deserialization(fault) => held == Some(Err::<T, Fault>(fault)),
        _ => false,
    }
}

impl Vault {
    /// The vault of a directory in which nothing was saved yet.
    pub fn new() -> (r: Vault)
        ensures
            r@ == (VaultImage { passwords: None, two_factor_accounts: None }),
    {
        Vault { passwords: None, two_factor_accounts: None }
    }

    /// The text of the collection's file, and `None` where it is not there.
    pub fn file(&self, kind: CollectionKind) -> (r: Option<&String>)
        ensures
            match r {
                Some(text) => self@.file(kind) == Some(text@),
                None => self@.file(kind) is None,
            },
    {
        match kind {
            CollectionKind::Passwords => self.passwords.as_ref(),
            CollectionKind::TwoFactorAccounts => self.two_factor_accounts.as_ref(),
        }
    }

    /// Makes `text` the whole of the collection's file, in the place of what
    /// the file held. The other file stays as it is.
    pub fn put(&mut self, kind: CollectionKind, text: String)
        ensures
            final(self)@ == old(self)@.with_file(kind, text@),
    {
        match kind {
            CollectionKind::Passwords => {
                self.passwords = Some(text);
            },
            CollectionKind::TwoFactorAccounts => {
                self.two_factor_accounts = Some(text);
            },
        }
    }

    /// The stored passwords. A file that is not there is an empty collection.
    pub fn load_passwords(&self) -> (r: Result<Vec<PasswordEntry>, VaultError>)
        ensures
            self@.passwords is None ==> (r matches Ok(list) && list@.len() == 0),
            match r {
                Ok(list) => self@.loaded_passwords() == Some(
                    Ok::<Seq<PasswordRecord>, Fault>(password_views(list@)),
                ),
                Err(e) => load_fails_with(
                    self@.loaded_passwords(),
                    CollectionKind::Passwords,
                    e,
                ),
            },
    {
        match &self.passwords {
            None => {
                let list: Vec<PasswordEntry> = Vec::new();
                proof {
                    assert(password_views(list@) == Seq::<PasswordRecord>::empty());
                }
                Ok(list)
            },
            Some(text) => match decode_passwords(text.as_str()) {
                Ok(list) => Ok(list),
                Err(DecodeError::Syntax(message)) => Err(
                    VaultError::CorruptStore(CollectionKind::Passwords, message),
                ),
                Err(DecodeError::Shape(fault)) => Err(VaultError::Deserialization(fault)),
            },
        }
    }

    /// The stored accounts. A file that is not there is an empty collection.
    pub fn load_two_factor_accounts(&self) -> (r: Result<Vec<TwoFactorAccount>, VaultError>)
        ensures
            self@.two_factor_accounts is None ==> (r matches Ok(list) && list@.len() == 0),
            match r {
                Ok(list) => self@.loaded_accounts() == Some(
                    Ok::<Seq<TwoFactorRecord>, Fault>(account_views(list@)),
                ),
                Err(e) => load_fails_with(
                    self@.loaded_accounts(),
                    CollectionKind::TwoFactorAccounts,
                    e,
                ),
            },
    {
        match &self.two_factor_accounts {
            None => {
                let list: Vec<TwoFactorAccount> = Vec::new();
                proof {
                    assert(account_views(list@) == Seq::<TwoFactorRecord>::empty());
                }
                Ok(list)
            },
            Some(text) => match decode_accounts(text.as_str()) {
                Ok(list) => Ok(list),
                Err(DecodeError::Syntax(message)) => Err(
                    VaultError::CorruptStore(CollectionKind::TwoFactorAccounts, message),
                ),
                Err(DecodeError::Shape(fault)) => Err(VaultError::Deserialization(fault)),
            },
        }
    }

    /// Replaces the stored passwords by `passwords`: the file then holds
    /// these and nothing of what it held before. The accounts stay as they
    /// are. Every collection can be saved.
    pub fn save_passwords(&mut self, passwords: Vec<PasswordEntry>) -> (r: Result<(), VaultError>)
        ensures
            r is Ok,
            old(self)@.saves_passwords(password_views(passwords@), final(self)@),
    {
        match encode_passwords(&passwords) {
            Ok(text) => {
                self.put(CollectionKind::Passwords, text);
                Ok(())
            },
            Err(e) => Err(VaultError::Serialization(e.message)),
        }
    }

    /// Replaces the stored accounts by `accounts`: the file then holds these
    /// and nothing of what it held before. The passwords stay as they are.
    /// Every collection can be saved.
    pub fn save_two_factor_accounts(&mut self, accounts: Vec<TwoFactorAccount>) -> (r: Result<
        (),
        VaultError,
    >)
        ensures
            r is Ok,
            old(self)@.saves_accounts(account_views(accounts@), final(self)@),
    {
        match encode_accounts(&accounts) {
            Ok(text) => {
                self.put(CollectionKind::TwoFactorAccounts, text);
                Ok(())
            },
            Err(e) => Err(VaultError::Serialization(e.message)),
        }
    }

    /// Both collections as one text. The passwords are loaded first; where a
    /// load fails, its failure is the result, and where both load, the export
    /// succeeds.
    pub fn export_data(&self) -> (r: Result<String, VaultError>)
        ensures
            match r {
                Ok(text) => self@.exports(text@),
                Err(e) => match self@.loaded_passwords() {
                    Some(Ok(_)) => load_fails_with(
                        self@.loaded_accounts(),
                        CollectionKind::TwoFactorAccounts,
                        e,
                    ),
                    held => load_fails_with(held, CollectionKind::Passwords, e),
                },
            },
    {
        let passwords = self.load_passwords()?;
        let two_factor_accounts = self.load_two_factor_accounts()?;
        let data = ExportData { passwords, two_factor_accounts };
        match encode_export(&data) {
            Ok(text) => Ok(text),
            Err(e) => Err(VaultError::Serialization(e.message)),
        }
    }

    /// Replaces both stored collections by those of `data`; nothing of what
    /// the vault held before is kept. The passwords are saved first. Every
    /// bundle can be imported.
    pub fn import_data(&mut self, data: ExportData) -> (r: Result<(), VaultError>)
        ensures
            r is Ok,
            old(self)@.imports(data@, final(self)@),
    {
        self.save_passwords(data.passwords)?;
        self.save_two_factor_accounts(data.two_factor_accounts)?;
        Ok(())
    }
}

} // verus!
