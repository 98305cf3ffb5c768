//! Entries to JSON documents and back.
//!
//! The text of a document is `serde_json`'s. Which members a document has,
//! under which names, and what is refused when one is read, is decided here.

use crate::entry::{
    account_views, password_views, ExportData, ExportRecord, Field, PasswordEntry, PasswordRecord,
    TwoFactorAccount, TwoFactorRecord,
};
use crate::json::{
    content, distinct_names, error_text, list_value, member, parse, parsed, plain,
    print, record_value, text_value, uint_value, Content, NESTING_LIMIT,
};
use serde_json::Value;
use vstd::prelude::*;
use vstd::string::StringExecFns;

verus! {

/// Why a document that parsed is not what was expected.
#[derive(Clone, Copy, Debug, PartialEq, Eq, Structural)]
pub enum Fault {
    /// An array was expected.
    NotAList,
    /// An object was expected.
    NotARecord,
    /// The object has no member of the field's name.
    Missing(Field),
    /// The member holds something other than the field's type.
    Mistyped(Field),
}

impl Fault {
    /// The fault as one line of text.
    pub open spec fn describe(self) -> Seq<char> {
        match self {
            Fault::NotAList => "expected an array"@,
            Fault::NotARecord => "expected an object"@,
            Fault::Missing(field) => "missing field `"@ + field.wire() + "`"@,
            Fault::Mistyped(field) => "invalid type for field `"@ + field.wire() + "`"@,
        }
    }

    /// The fault as one line of text, with the name of the field at fault.
    pub fn message(&self) -> (r: String)
        ensures
            r@ == self.describe(),
    {
        match self {
            Fault::NotAList => "expected an array".to_owned(),
            Fault::NotARecord => "expected an object".to_owned(),
            Fault::Missing(field) => {
                let mut line = "missing field `".to_owned();
                line.append(field.wire_name());
                line.append("`");
                line
            },
            Fault::Mistyped(field) => {
                let mut line = "invalid type for field `".to_owned();
                line.append(field.wire_name());
                line.append("`");
                line
            },
        }
    }
}

/// Why a text could not be read.
#[derive(Clone, Debug, PartialEq, Eq)]
pub enum DecodeError {
    /// The text is not JSON. The string is the parser's message.
    Syntax(String),
    /// The text is JSON of the wrong shape.
    Shape(Fault),
}

/// The text that the member `field` of the object `v` holds.
pub open spec fn text_member(v: Value, field: Field) -> Result<Seq<char>, Fault> {
    match content(v) {
        Content::Record(members) => if members.contains_key(field.wire()) {
            match content(members[field.wire()]) {
                Content::Text(text) => Ok(text),
                _ => Err(Fault::Mistyped(field)),
            }
        } else {
            Err(Fault::Missing(field))
        },
        _ => Err(Fault::NotARecord),
    }
}

/// The number that the member `field` of the object `v` holds. A number
/// above `u32::MAX` is not of the field's type.
pub open spec fn count_member(v: Value, field: Field) -> Result<u32, Fault> {
    match content(v) {
        Content::Record(members) => if members.contains_key(field.wire()) {
            match content(members[field.wire()]) {
                Content::Uint(n) => if n <= u32::MAX {
                    Ok(n as u32)
                } else {
                    Err(Fault::Mistyped(field))
                },
                _ => Err(Fault::Mistyped(field)),
            }
        } else {
            Err(Fault::Missing(field))
        },
        _ => Err(Fault::NotARecord),
    }
}

/// Reads the text member `field` of `v`.
pub fn read_text(v: &Value, field: Field) -> (r: Result<String, Fault>)
    ensures
        match r {
            Ok(text) => text_member(*v, field) == Ok::<Seq<char>, Fault>(text@),
            Err(fault) => text_member(*v, field) == Err::<Seq<char>, Fault>(fault),
        },
{
    if !v.is_object() {
        return Err(Fault::NotARecord);
    }
    match member(v, field.wire_name()) {
        None => Err(Fault::Missing(field)),
        Some(found) => match found.as_str() {
            Some(text) => Ok(text.to_owned()),
            None => Err(Fault::Mistyped(field)),
        },
    }
}

/// Reads the number member `field` of `v`.
pub fn read_count(v: &Value, field: Field) -> (r: Result<u32, Fault>)
    ensures
        r == count_member(*v, field),
{
    if !v.is_object() {
        return Err(Fault::NotARecord);
    }
    match member(v, field.wire_name()) {
        None => Err(Fault::Missing(field)),
        Some(found) => match found.as_u64() {
            Some(n) => if n <= 0xffff_ffff {
                Ok(n as u32)
            } else {
                Err(Fault::Mistyped(field))
            },
            None => Err(Fault::Mistyped(field)),
        },
    }
}

/// The password entry that the object `v` holds: its six text members, under
/// their JSON names. Members of other names are passed over. Where several
/// members fail, the fault is that of the first in the order `id`, `website`,
/// `username`, `password`, `category`, `lastUpdated`.
pub open spec fn password_of(v: Value) -> Result<PasswordRecord, Fault> {
    match text_member(v, Field::Id) {
        Err(fault) => Err(fault),
        Ok(id) => match text_member(v, Field::Website) {
            Err(fault) => Err(fault),
            Ok(website) => match text_member(v, Field::Username) {
                Err(fault) => Err(fault),
                Ok(username) => match text_member(v, Field::Password) {
                    Err(fault) => Err(fault),
                    Ok(password) => match text_member(v, Field::Category) {
                        Err(fault) => Err(fault),
                        Ok(category) => match text_member(v, Field::LastUpdated) {
                            Err(fault) => Err(fault),
                            Ok(last_updated) => Ok(
                                PasswordRecord {
                                    id,
                                    website,
                                    username,
                                    password,
                                    category,
                                    last_updated,
                                },
                            ),
                        },
                    },
                },
            },
        },
    }
}

/// Reads a password entry from the object `v`.
pub fn read_password(v: &Value) -> (r: Result<PasswordEntry, Fault>)
    ensures
        match r {
            Ok(entry) => password_of(*v) == Ok::<PasswordRecord, Fault>(entry@),
            Err(fault) => password_of(*v) == Err::<PasswordRecord, Fault>(fault),
        },
{
    let id = read_text(v, Field::Id)?;
    let website = read_text(v, Field::Website)?;
    let username = read_text(v, Field::Username)?;
    let password = read_text(v, Field::Password)?;
    let category = read_text(v, Field::Category)?;
    let last_updated = read_text(v, Field::LastUpdated)?;
    Ok(PasswordEntry { id, website, username, password, category, last_updated })
}

/// The password entries that `items` hold, in order; where some item holds
/// none, the fault of the first such item.
pub open spec fn passwords_among(items: Seq<Value>) -> Result<Seq<PasswordRecord>, Fault>
    decreases items.len(),
{
    if items.len() == 0 {
        Ok(Seq::empty())
    } else {
        match passwords_among(items.drop_last()) {
            Err(fault) => Err(fault),
            Ok(before) => match password_of(items.last()) {
                Err(fault) => Err(fault),
                Ok(record) => Ok(before.push(record)),
            },
        }
    }
}

/// A fault among the first `k` items is the fault of the whole.
pub proof fn passwords_among_fails_early(items: Seq<Value>, k: int, fault: Fault)
    requires
        0 <= k <= items.len(),
        passwords_among(items.take(k)) == Err::<Seq<PasswordRecord>, Fault>(fault),
    ensures
        passwords_among(items) == Err::<Seq<PasswordRecord>, Fault>(fault),
    decreases items.len(),
{
    if k < items.len() {
        assert(items.drop_last().take(k) == items.take(k));
        passwords_among_fails_early(items.drop_last(), k, fault);
    } else {
        assert(items.take(k) == items);
    }
}

/// Items that each hold the record at their place hold `records` together.
pub proof fn passwords_among_all(items: Seq<Value>, records: Seq<PasswordRecord>)
    requires
        items.len() == records.len(),
        forall|i: int|
            0 <= i < items.len() ==> password_of(#[trigger] items[i]) == Ok::<
                PasswordRecord,
                Fault,
            >(records[i]),
    ensures
        passwords_among(items) == Ok::<Seq<PasswordRecord>, Fault>(records),
    decreases items.len(),
{
    if items.len() > 0 {
        passwords_among_all(items.drop_last(), records.drop_last());
        assert(records.drop_last().push(records.last()) == records);
    } else {
        assert(records == Seq::<PasswordRecord>::empty());
    }
}

/// The password collection that the document `v` holds: an array of entries.
pub open spec fn passwords_of(v: Value) -> Result<Seq<PasswordRecord>, Fault> {
    match content(v) {
        Content::List(items) => passwords_among(items),
        _ => Err(Fault::NotAList),
    }
}

/// Reads a password collection from the document `v`.
pub fn read_passwords(v: &Value) -> (r: Result<Vec<PasswordEntry>, Fault>)
    ensures
        match r {
            Ok(list) => passwords_of(*v) == Ok::<Seq<PasswordRecord>, Fault>(
                password_views(list@),
            ),
            Err(fault) => passwords_of(*v) == Err::<Seq<PasswordRecord>, Fault>(fault),
        },
{
    let items = match v.as_array() {
        Some(items) => items,
        None => {
            return Err(Fault::NotAList);
        },
    };
    let mut list: Vec<PasswordEntry> = Vec::new();
    let mut i: usize = 0;
    proof {
        assert(password_views(list@) == Seq::<PasswordRecord>::empty());
    }
    while i < items.len()
        invariant
            i <= items.len(),
            content(*v) == Content::List(items@),
            passwords_among(items@.take(i as int)) == Ok::<Seq<PasswordRecord>, Fault>(
                password_views(list@),
            ),
        decreases items.len() - i,
    {
        proof {
            assert(items@.take(i + 1).drop_last() == items@.take(i as int));
        }
        match read_password(&items[i]) {
            Ok(entry) => {
                proof {
                    assert(password_views(list@).push(entry@) == password_views(list@.push(entry)));
                }
                list.push(entry);
            },
            Err(fault) => {
                proof {
                    passwords_among_fails_early(items@, i + 1, fault);
                }
                return Err(fault);
            },
        }
        i += 1;
    }
    proof {
        assert(items@.take(i as int) == items@);
    }
    Ok(list)
}

/// The account that the object `v` holds: six text members and two numbers,
/// under their JSON names. Members of other names are passed over. Where
/// several members fail, the fault is that of the first in the order `id`,
/// `name`, `issuer`, `secret`, `type`, `algorithm`, `digits`, `period`.
pub open spec fn account_of(v: Value) -> Result<TwoFactorRecord, Fault> {
    match text_member(v, Field::Id) {
        Err(fault) => Err(fault),
        Ok(id) => match text_member(v, Field::Name) {
            Err(fault) => Err(fault),
            Ok(name) => match text_member(v, Field::Issuer) {
                Err(fault) => Err(fault),
                Ok(issuer) => match text_member(v, Field::Secret) {
                    Err(fault) => Err(fault),
                    Ok(secret) => match text_member(v, Field::Type) {
                        Err(fault) => Err(fault),
                        Ok(type_) => match text_member(v, Field::Algorithm) {
                            Err(fault) => Err(fault),
                            Ok(algorithm) => match count_member(v, Field::Digits) {
                                Err(fault) => Err(fault),
                                Ok(digits) => match count_member(v, Field::Period) {
                                    Err(fault) => Err(fault),
                                    Ok(period) => Ok(
                                        TwoFactorRecord {
                                            id,
                                            name,
                                            issuer,
                                            secret,
                                            type_,
                                            algorithm,
                                            digits,
                                            period,
                                        },
                                    ),
                                },
                            },
                        },
                    },
                },
            },
        },
    }
}

/// Reads an account from the object `v`.
pub fn read_account(v: &Value) -> (r: Result<TwoFactorAccount, Fault>)
    ensures
        match r {
            Ok(account) => account_of(*v) == Ok::<TwoFactorRecord, Fault>(account@),
            Err(fault) => account_of(*v) == Err::<TwoFactorRecord, Fault>(fault),
        },
{
    let id = read_text(v, Field::Id)?;
    let name = read_text(v, Field::Name)?;
    let issuer = read_text(v, Field::Issuer)?;
    let secret = read_text(v, Field::Secret)?;
    let type_ = read_text(v, Field::Type)?;
    let algorithm = read_text(v, Field::Algorithm)?;
    let digits = read_count(v, Field::Digits)?;
    let period = read_count(v, Field::Period)?;
    Ok(TwoFactorAccount { id, name, issuer, secret, type_, algorithm, digits, period })
}

/// The accounts that `items` hold, in order; where some item holds none, the
/// fault of the first such item.
pub open spec fn accounts_among(items: Seq<Value>) -> Result<Seq<TwoFactorRecord>, Fault>
    decreases items.len(),
{
    if items.len() == 0 {
        Ok(Seq::empty())
    } else {
        match accounts_among(items.drop_last()) {
            Err(fault) => Err(fault),
            Ok(before) => match account_of(items.last()) {
                Err(fault) => Err(fault),
                Ok(record) => Ok(before.push(record)),
            },
        }
    }
}

/// A fault among the first `k` items is the fault of the whole.
pub proof fn accounts_among_fails_early(items: Seq<Value>, k: int, fault: Fault)
    requires
        0 <= k <= items.len(),
        accounts_among(items.take(k)) == Err::<Seq<TwoFactorRecord>, Fault>(fault),
    ensures
        accounts_among(items) == Err::<Seq<TwoFactorRecord>, Fault>(fault),
    decreases items.len(),
{
    if k < items.len() {
        assert(items.drop_last().take(k) == items.take(k));
        accounts_among_fails_early(items.drop_last(), k, fault);
    } else {
        assert(items.take(k) == items);
    }
}

/// Items that each hold the record at their place hold `records` together.
pub proof fn accounts_among_all(items: Seq<Value>, records: Seq<TwoFactorRecord>)
    requires
        items.len() == records.len(),
        forall|i: int|
            0 <= i < items.len() ==> account_of(#[trigger] items[i]) == Ok::<
                TwoFactorRecord,
                Fault,
            >(records[i]),
    ensures
        accounts_among(items) == Ok::<Seq<TwoFactorRecord>, Fault>(records),
    decreases items.len(),
{
    if items.len() > 0 {
        accounts_among_all(items.drop_last(), records.drop_last());
        assert(records.drop_last().push(records.last()) == records);
    } else {
        assert(records == Seq::<TwoFactorRecord>::empty());
    }
}

/// The account collection that the document `v` holds: an array of accounts.
pub open spec fn accounts_of(v: Value) -> Result<Seq<TwoFactorRecord>, Fault> {
    match content(v) {
        Content::List(items) => accounts_among(items),
        _ => Err(Fault::NotAList),
    }
}

/// Reads an account collection from the document `v`.
pub fn read_accounts(v: &Value) -> (r: Result<Vec<TwoFactorAccount>, Fault>)
    ensures
        match r {
            Ok(list) => accounts_of(*v) == Ok::<Seq<TwoFactorRecord>, Fault>(
                account_views(list@),
            ),
            Err(fault) => accounts_of(*v) == Err::<Seq<TwoFactorRecord>, Fault>(fault),
        },
{
    let items = match v.as_array() {
        Some(items) => items,
        None => {
            return Err(Fault::NotAList);
        },
    };
    let mut list: Vec<TwoFactorAccount> = Vec::new();
    let mut i: usize = 0;
    proof {
        assert(account_views(list@) == Seq::<TwoFactorRecord>::empty());
    }
    while i < items.len()
        invariant
            i <= items.len(),
            content(*v) == Content::List(items@),
            accounts_among(items@.take(i as int)) == Ok::<Seq<TwoFactorRecord>, Fault>(
                account_views(list@),
            ),
        decreases items.len() - i,
    {
        proof {
            assert(items@.take(i + 1).drop_last() == items@.take(i as int));
        }
        match read_account(&items[i]) {
            Ok(account) => {
                proof {
                    assert(account_views(list@).push(account@) == account_views(
                        list@.push(account),
                    ));
                }
                list.push(account);
            },
            Err(fault) => {
                proof {
                    accounts_among_fails_early(items@, i + 1, fault);
                }
                return Err(fault);
            },
        }
        i += 1;
    }
    proof {
        assert(items@.take(i as int) == items@);
    }
    Ok(list)
}

/// The bundle that the object `v` holds: a password collection under
/// `passwords` and an account collection under `two_factor_accounts`.
/// Members of other names are passed over. The passwords are read first.
pub open spec fn export_of(v: Value) -> Result<ExportRecord, Fault> {
    match content(v) {
        Content::Record(members) => if !members.contains_key(Field::Passwords.wire()) {
            Err(Fault::Missing(Field::Passwords))
        } else {
            match passwords_of(members[Field::Passwords.wire()]) {
                Err(fault) => Err(fault),
                Ok(passwords) => if !members.contains_key(Field::TwoFactorAccounts.wire()) {
                    Err(Fault::Missing(Field::TwoFactorAccounts))
                } else {
                    match accounts_of(members[Field::TwoFactorAccounts.wire()]) {
                        Err(fault) => Err(fault),
                        Ok(two_factor_accounts) => Ok(
                            ExportRecord { passwords, two_factor_accounts },
                        ),
                    }
                },
            }
        },
        _ => Err(Fault::NotARecord),
    }
}

/// Reads a bundle from the object `v`.
pub fn read_export(v: &Value) -> (r: Result<ExportData, Fault>)
    ensures
        match r {
            Ok(data) => export_of(*v) == Ok::<ExportRecord, Fault>(data@),
            Err(fault) => export_of(*v) == Err::<ExportRecord, Fault>(fault),
        },
{
    if !v.is_object() {
        return Err(Fault::NotARecord);
    }
    let passwords = match member(v, Field::Passwords.wire_name()) {
        None => {
            return Err(Fault::Missing(Field::Passwords));
        },
        Some(found) => read_passwords(found)?,
    };
    let two_factor_accounts = match member(v, Field::TwoFactorAccounts.wire_name()) {
        None => {
            return Err(Fault::Missing(Field::TwoFactorAccounts));
        },
        Some(found) => read_accounts(found)?,
    };
    Ok(ExportData { passwords, two_factor_accounts })
}

/// What `text` holds when it is read as a password collection: `None` where
/// it is not JSON, else the collection or the fault.
pub open spec fn passwords_in(text: Seq<char>) -> Option<Result<Seq<PasswordRecord>, Fault>> {
    match parsed(text) {
        Some(v) => Some(passwords_of(v)),
        None => None,
    }
}

/// What `text` holds when it is read as an account collection: `None` where
/// it is not JSON, else the collection or the fault.
pub open spec fn accounts_in(text: Seq<char>) -> Option<Result<Seq<TwoFactorRecord>, Fault>> {
    match parsed(text) {
        Some(v) => Some(accounts_of(v)),
        None => None,
    }
}

/// What `text` holds when it is read as a bundle: `None` where it is not
/// JSON, else the bundle or the fault.
pub open spec fn export_in(text: Seq<char>) -> Option<Result<ExportRecord, Fault>> {
    match parsed(text) {
        Some(v) => Some(export_of(v)),
        None => None,
    }
}

/// Reads a password collection from JSON text.
pub fn decode_passwords(text: &str) -> (r: Result<Vec<PasswordEntry>, DecodeError>)
    ensures
        match r {
            Ok(list) => passwords_in(text@) == Some(
                Ok::<Seq<PasswordRecord>, Fault>(password_views(list@)),
            ),
            Err(DecodeError::Shape(fault)) => passwords_in(text@) == Some(
                Err::<Seq<PasswordRecord>, Fault>(fault),
            ),
            Err(DecodeError::Syntax(_)) => passwords_in(text@) is None,
        },
{
    match parse(text) {
        Err(e) => Err(DecodeError::Syntax(error_text(&e))),
        Ok(v) => match read_passwords(&v) {
            Ok(list) => Ok(list),
            Err(fault) => Err(DecodeError::Shape(fault)),
        },
    }
}

/// Reads an account collection from JSON text.
pub fn decode_accounts(text: &str) -> (r: Result<Vec<TwoFactorAccount>, DecodeError>)
    ensures
        match r {
            Ok(list) => accounts_in(text@) == Some(
                Ok::<Seq<TwoFactorRecord>, Fault>(account_views(list@)),
            ),
            Err(DecodeError::Shape(fault)) => accounts_in(text@) == Some(
                Err::<Seq<TwoFactorRecord>, Fault>(fault),
            ),
            Err(DecodeError::Syntax(_)) => accounts_in(text@) is None,
        },
{
    match parse(text) {
        Err(e) => Err(DecodeError::Syntax(error_text(&e))),
        Ok(v) => match read_accounts(&v) {
            Ok(list) => Ok(list),
            Err(fault) => Err(DecodeError::Shape(fault)),
        },
    }
}

/// Reads a bundle from JSON text.
pub fn decode_export(text: &str) -> (r: Result<ExportData, DecodeError>)
    ensures
        match r {
            Ok(data) => export_in(text@) == Some(Ok::<ExportRecord, Fault>(data@)),
            Err(DecodeError::Shape(fault)) => export_in(text@) == Some(
                Err::<ExportRecord, Fault>(fault),
            ),
            Err(DecodeError::Syntax(_)) => export_in(text@) is None,
        },
{
    match parse(text) {
        Err(e) => Err(DecodeError::Syntax(error_text(&e))),
        Ok(v) => match read_export(&v) {
            Ok(data) => Ok(data),
            Err(fault) => Err(DecodeError::Shape(fault)),
        },
    }
}

/// Why a collection could not be written as text: the printer's message.
#[derive(Clone, Debug, PartialEq, Eq)]
pub struct EncodeError {
    pub message: String,
}

/// The member of `field`'s name that holds `text`.
fn text_pair(field: Field, text: &String) -> (pair: (String, Value))
    ensures
        pair.0@ == field.wire(),
        content(pair.1) == Content::Text(text@),
{
    (field.wire_name().to_owned(), text_value(text.clone()))
}

/// The member of `field`'s name that holds the number `n`.
fn count_pair(field: Field, n: u32) -> (pair: (String, Value))
    ensures
        pair.0@ == field.wire(),
        content(pair.1) == Content::Uint(n as u64),
{
    (field.wire_name().to_owned(), uint_value(n as u64))
}

/// `v` is the JSON object of the entry `record`: its six text members under
/// their JSON names, and no other member.
pub open spec fn is_password_value(v: Value, record: PasswordRecord) -> bool {
    match content(v) {
        Content::Record(members) => {
            &&& forall|name: Seq<char>| #[trigger]
                members.contains_key(name) <==> {
                    ||| name == Field::Id.wire()
                    ||| name == Field::Website.wire()
                    ||| name == Field::Username.wire()
                    ||| name == Field::Password.wire()
                    ||| name == Field::Category.wire()
                    ||| name == Field::LastUpdated.wire()
                }
            &&& content(members[Field::Id.wire()]) == Content::Text(record.id)
            &&& content(members[Field::Website.wire()]) == Content::Text(record.website)
            &&& content(members[Field::Username.wire()]) == Content::Text(record.username)
            &&& content(members[Field::Password.wire()]) == Content::Text(record.password)
            &&& content(members[Field::Category.wire()]) == Content::Text(record.category)
            &&& content(members[Field::LastUpdated.wire()]) == Content::Text(record.last_updated)
        },
        _ => false,
    }
}

/// The JSON object of a password entry.
pub fn password_value(entry: &PasswordEntry) -> (v: Value)
    ensures
        is_password_value(v, entry@),
{
    let mut fields: Vec<(String, Value)> = Vec::new();
    fields.push(text_pair(Field::Id, &entry.id));
    fields.push(text_pair(Field::Website, &entry.website));
    fields.push(text_pair(Field::Username, &entry.username));
    fields.push(text_pair(Field::Password, &entry.password));
    fields.push(text_pair(Field::Category, &entry.category));
    fields.push(text_pair(Field::LastUpdated, &entry.last_updated));
    proof {
        assert forall|a: Field, b: Field| a != b implies a.wire() != b.wire() by {
            Field::wire_is_injective(a, b);
        }
        assert(distinct_names(fields@));
    }
    let v = record_value(fields);
    proof {
        let members = content(v)->Record_0;
        assert(members.contains_key(fields@[0].0@));
        assert(members.contains_key(fields@[1].0@));
        assert(members.contains_key(fields@[2].0@));
        assert(members.contains_key(fields@[3].0@));
        assert(members.contains_key(fields@[4].0@));
        assert(members.contains_key(fields@[5].0@));
    }
    v
}

/// The JSON object of an entry reads back as that entry, and is plain.
pub proof fn password_value_reads_back(v: Value, record: PasswordRecord, depth: nat)
    requires
        is_password_value(v, record),
        depth >= 1,
    ensures
        password_of(v) == Ok::<PasswordRecord, Fault>(record),
        plain(v, depth),
{
    let members = content(v)->Record_0;
    assert forall|name: Seq<char>| members.contains_key(name) implies plain(
        #[trigger] members[name],
        (depth - 1) as nat,
    ) by {}
}

/// `v` is the JSON object of the account `record`: its six text members and
/// two numbers under their JSON names, and no other member.
pub open spec fn is_account_value(v: Value, record: TwoFactorRecord) -> bool {
    match content(v) {
        Content::Record(members) => {
            &&& forall|name: Seq<char>| #[trigger]
                members.contains_key(name) <==> {
                    ||| name == Field::Id.wire()
                    ||| name == Field::Name.wire()
                    ||| name == Field::Issuer.wire()
                    ||| name == Field::Secret.wire()
                    ||| name == Field::Type.wire()
                    ||| name == Field::Algorithm.wire()
                    ||| name == Field::Digits.wire()
                    ||| name == Field::Period.wire()
                }
            &&& content(members[Field::Id.wire()]) == Content::Text(record.id)
            &&& content(members[Field::Name.wire()]) == Content::Text(record.name)
            &&& content(members[Field::Issuer.wire()]) == Content::Text(record.issuer)
            &&& content(members[Field::Secret.wire()]) == Content::Text(record.secret)
            &&& content(members[Field::Type.wire()]) == Content::Text(record.type_)
            &&& content(members[Field::Algorithm.wire()]) == Content::Text(record.algorithm)
            &&& content(members[Field::Digits.wire()]) == Content::Uint(record.digits as u64)
            &&& content(members[Field::Period.wire()]) == Content::Uint(record.period as u64)
        },
        _ => false,
    }
}

/// The JSON object of an account.
pub fn account_value(account: &TwoFactorAccount) -> (v: Value)
    ensures
        is_account_value(v, account@),
{
    let mut fields: Vec<(String, Value)> = Vec::new();
    fields.push(text_pair(Field::Id, &account.id));
    fields.push(text_pair(Field::Name, &account.name));
    fields.push(text_pair(Field::Issuer, &account.issuer));
    fields.push(text_pair(Field::Secret, &account.secret));
    fields.push(text_pair(Field::Type, &account.type_));
    fields.push(text_pair(Field::Algorithm, &account.algorithm));
    fields.push(count_pair(Field::Digits, account.digits));
    fields.push(count_pair(Field::Period, account.period));
    proof {
        assert forall|a: Field, b: Field| a != b implies a.wire() != b.wire() by {
            Field::wire_is_injective(a, b);
        }
        assert(distinct_names(fields@));
    }
    let v = record_value(fields);
    proof {
        let members = content(v)->Record_0;
        assert(members.contains_key(fields@[0].0@));
        assert(members.contains_key(fields@[1].0@));
        assert(members.contains_key(fields@[2].0@));
        assert(members.contains_key(fields@[3].0@));
        assert(members.contains_key(fields@[4].0@));
        assert(members.contains_key(fields@[5].0@));
        assert(members.contains_key(fields@[6].0@));
        assert(members.contains_key(fields@[7].0@));
    }
    v
}

/// The JSON object of an account reads back as that account, and is plain.
pub proof fn account_value_reads_back(v: Value, record: TwoFactorRecord, depth: nat)
    requires
        is_account_value(v, record),
        depth >= 1,
    ensures
        account_of(v) == Ok::<TwoFactorRecord, Fault>(record),
        plain(v, depth),
{
    let members = content(v)->Record_0;
    assert forall|name: Seq<char>| members.contains_key(name) implies plain(
        #[trigger] members[name],
        (depth - 1) as nat,
    ) by {}
}

/// `v` is the JSON array of the entries `records`, in their order.
pub open spec fn is_passwords_value(v: Value, records: Seq<PasswordRecord>) -> bool {
    match content(v) {
        Content::List(items) => {
            &&& items.len() == records.len()
            &&& forall|i: int|
                0 <= i < items.len() ==> is_password_value(#[trigger] items[i], records[i])
        },
        _ => false,
    }
}

/// `v` is the JSON array of the accounts `records`, in their order.
pub open spec fn is_accounts_value(v: Value, records: Seq<TwoFactorRecord>) -> bool {
    match content(v) {
        Content::List(items) => {
            &&& items.len() == records.len()
            &&& forall|i: int|
                0 <= i < items.len() ==> is_account_value(#[trigger] items[i], records[i])
        },
        _ => false,
    }
}

/// The JSON array of a password collection.
pub fn passwords_value(list: &Vec<PasswordEntry>) -> (v: Value)
    ensures
        is_passwords_value(v, password_views(list@)),
{
    let mut items: Vec<Value> = Vec::new();
    let mut i: usize = 0;
    while i < list.len()
        invariant
            i <= list.len(),
            items.len() == i,
            forall|k: int| 0 <= k < i ==> is_password_value(#[trigger] items[k], list[k]@),
        decreases list.len() - i,
    {
        items.push(password_value(&list[i]));
        i += 1;
    }
    list_value(items)
}

/// The JSON array of an account collection.
pub fn accounts_value(list: &Vec<TwoFactorAccount>) -> (v: Value)
    ensures
        is_accounts_value(v, account_views(list@)),
{
    let mut items: Vec<Value> = Vec::new();
    let mut i: usize = 0;
    while i < list.len()
        invariant
            i <= list.len(),
            items.len() == i,
            forall|k: int| 0 <= k < i ==> is_account_value(#[trigger] items[k], list[k]@),
        decreases list.len() - i,
    {
        items.push(account_value(&list[i]));
        i += 1;
    }
    list_value(items)
}

/// The JSON array of a password collection reads back as that collection,
/// and is plain.
pub proof fn passwords_value_reads_back(v: Value, records: Seq<PasswordRecord>, depth: nat)
    requires
        is_passwords_value(v, records),
        depth >= 2,
    ensures
        passwords_of(v) == Ok::<Seq<PasswordRecord>, Fault>(records),
        plain(v, depth),
{
    let items = content(v)->List_0;
    assert forall|i: int| 0 <= i < items.len() implies password_of(#[trigger] items[i]) == Ok::<
        PasswordRecord,
        Fault,
    >(records[i]) && plain(items[i], (depth - 1) as nat) by {
        password_value_reads_back(items[i], records[i], (depth - 1) as nat);
    }
    passwords_among_all(items, records);
}

/// The JSON array of an account collection reads back as that collection,
/// and is plain.
pub proof fn accounts_value_reads_back(v: Value, records: Seq<TwoFactorRecord>, depth: nat)
    requires
        is_accounts_value(v, records),
        depth >= 2,
    ensures
        accounts_of(v) == Ok::<Seq<TwoFactorRecord>, Fault>(records),
        plain(v, depth),
{
    let items = content(v)->List_0;
    assert forall|i: int| 0 <= i < items.len() implies account_of(#[trigger] items[i]) == Ok::<
        TwoFactorRecord,
        Fault,
    >(records[i]) && plain(items[i], (depth - 1) as nat) by {
        account_value_reads_back(items[i], records[i], (depth - 1) as nat);
    }
    accounts_among_all(items, records);
}

/// `v` is the JSON object of the bundle `record`: the two collections under
/// `passwords` and `two_factor_accounts`, and no other member.
pub open spec fn is_export_value(v: Value, record: ExportRecord) -> bool {
    match content(v) {
        Content::Record(members) => {
            &&& forall|name: Seq<char>| #[trigger]
                members.contains_key(name) <==> {
                    ||| name == Field::Passwords.wire()
                    ||| name == Field::TwoFactorAccounts.wire()
                }
            &&& is_passwords_value(members[Field::Passwords.wire()], record.passwords)
            &&& is_accounts_value(
                members[Field::TwoFactorAccounts.wire()],
                record.two_factor_accounts,
            )
        },
        _ => false,
    }
}

/// The JSON object of a bundle.
pub fn export_value(data: &ExportData) -> (v: Value)
    ensures
        is_export_value(v, data@),
{
    let mut fields: Vec<(String, Value)> = Vec::new();
    fields.push((Field::Passwords.wire_name().to_owned(), passwords_value(&data.passwords)));
    fields.push(
        (
            Field::TwoFactorAccounts.wire_name().to_owned(),
            accounts_value(&data.two_factor_accounts),
        ),
    );
    proof {
        Field::wire_is_injective(Field::Passwords, Field::TwoFactorAccounts);
        assert(distinct_names(fields@));
    }
    let v = record_value(fields);
    proof {
        let members = content(v)->Record_0;
        assert(members.contains_key(fields@[0].0@));
        assert(members.contains_key(fields@[1].0@));
    }
    v
}

/// The JSON object of a bundle reads back as that bundle, and is plain.
pub proof fn export_value_reads_back(v: Value, record: ExportRecord, depth: nat)
    requires
        is_export_value(v, record),
        depth >= 3,
    ensures
        export_of(v) == Ok::<ExportRecord, Fault>(record),
        plain(v, depth),
{
    let members = content(v)->Record_0;
    Field::wire_is_injective(Field::Passwords, Field::TwoFactorAccounts);
    passwords_value_reads_back(
        members[Field::Passwords.wire()],
        record.passwords,
        (depth - 1) as nat,
    );
    accounts_value_reads_back(
        members[Field::TwoFactorAccounts.wire()],
        record.two_factor_accounts,
        (depth - 1) as nat,
    );
    assert forall|name: Seq<char>| members.contains_key(name) implies plain(
        #[trigger] members[name],
        (depth - 1) as nat,
    ) by {}
}

/// Writes a password collection as JSON text: the array of the entries'
/// objects. Every collection can be written, and the text reads back as the
/// collection.
pub fn encode_passwords(list: &Vec<PasswordEntry>) -> (r: Result<String, EncodeError>)
    ensures
        r matches Ok(text) && passwords_in(text@) == Some(
            Ok::<Seq<PasswordRecord>, Fault>(password_views(list@)),
        ),
{
    let v = passwords_value(list);
    proof {
        passwords_value_reads_back(v, password_views(list@), NESTING_LIMIT as nat);
    }
    match print(&v) {
        Ok(text) => Ok(text),
        Err(e) => Err(EncodeError { message: error_text(&e) }),
    }
}

/// Writes an account collection as JSON text: the array of the accounts'
/// objects. Every collection can be written, and the text reads back as the
/// collection.
pub fn encode_accounts(list: &Vec<TwoFactorAccount>) -> (r: Result<String, EncodeError>)
    ensures
        r matches Ok(text) && accounts_in(text@) == Some(
            Ok::<Seq<TwoFactorRecord>, Fault>(account_views(list@)),
        ),
{
    let v = accounts_value(list);
    proof {
        accounts_value_reads_back(v, account_views(list@), NESTING_LIMIT as nat);
    }
    match print(&v) {
        Ok(text) => Ok(text),
        Err(e) => Err(EncodeError { message: error_text(&e) }),
    }
}

/// Writes a bundle as JSON text: the object of its two collections. Every
/// bundle can be written, and the text reads back as the bundle.
pub fn encode_export(data: &ExportData) -> (r: Result<String, EncodeError>)
    ensures
        r matches Ok(text) && export_in(text@) == Some(Ok::<ExportRecord, Fault>(data@)),
{
    let v = export_value(data);
    proof {
        export_value_reads_back(v, data@, NESTING_LIMIT as nat);
    }
    match print(&v) {
        Ok(text) => Ok(text),
        Err(e) => Err(EncodeError { message: error_text(&e) }),
    }
}

} // verus!
