//! What holds of the vault's operations taken together.
//!
//! Each law speaks of vaults before and after an operation, through the
//! statements that the operations themselves make of their results.

use crate::codec::{export_in, Fault};
use crate::entry::{ExportRecord, PasswordRecord, TwoFactorRecord};
use crate::json::parsed;
use crate::vault::VaultImage;
use vstd::prelude::*;

verus! {

/// Loading after a save gives what was saved, entry for entry and field for
/// field.
pub proof fn load_gives_what_was_saved(
    before: VaultImage,
    passwords: Seq<PasswordRecord>,
    accounts: Seq<TwoFactorRecord>,
    between: VaultImage,
    after: VaultImage,
)
    requires
        before.saves_passwords(passwords, between),
        between.saves_accounts(accounts, after),
    ensures
        between.loaded_passwords() == Some(Ok::<Seq<PasswordRecord>, Fault>(passwords)),
        after.loaded_passwords() == Some(Ok::<Seq<PasswordRecord>, Fault>(passwords)),
        after.loaded_accounts() == Some(Ok::<Seq<TwoFactorRecord>, Fault>(accounts)),
{
}

/// A collection that was never saved loads as the empty collection.
pub proof fn never_saved_loads_empty(vault: VaultImage)
    ensures
        vault.passwords is None ==> vault.loaded_passwords() == Some(
            Ok::<Seq<PasswordRecord>, Fault>(Seq::empty()),
        ),
        vault.two_factor_accounts is None ==> vault.loaded_accounts() == Some(
            Ok::<Seq<TwoFactorRecord>, Fault>(Seq::empty()),
        ),
{
}

/// Of two saves of the passwords the second one stays: nothing of the first
/// is loaded after it.
pub proof fn last_saved_passwords_stay(
    before: VaultImage,
    first: Seq<PasswordRecord>,
    between: VaultImage,
    second: Seq<PasswordRecord>,
    after: VaultImage,
)
    requires
        before.saves_passwords(first, between),
        between.saves_passwords(second, after),
    ensures
        after.loaded_passwords() == Some(Ok::<Seq<PasswordRecord>, Fault>(second)),
        after.loaded_accounts() == before.loaded_accounts(),
{
}

/// Of two saves of the accounts the second one stays: nothing of the first
/// is loaded after it.
pub proof fn last_saved_accounts_stay(
    before: VaultImage,
    first: Seq<TwoFactorRecord>,
    between: VaultImage,
    second: Seq<TwoFactorRecord>,
    after: VaultImage,
)
    requires
        before.saves_accounts(first, between),
        between.saves_accounts(second, after),
    ensures
        after.loaded_accounts() == Some(Ok::<Seq<TwoFactorRecord>, Fault>(second)),
        after.loaded_passwords() == before.loaded_passwords(),
{
}

/// Importing what a vault exported, into that vault or into any other,
/// gives a vault that loads what the first one loaded.
pub proof fn import_of_export_changes_nothing(
    source: VaultImage,
    text: Seq<char>,
    data: ExportRecord,
    target: VaultImage,
    after: VaultImage,
)
    requires
        source.exports(text),
        export_in(text) == Some(Ok::<ExportRecord, Fault>(data)),
        target.imports(data, after),
    ensures
        after.loaded_passwords() == source.loaded_passwords(),
        after.loaded_accounts() == source.loaded_accounts(),
{
}

/// A passwords file that is not JSON does not load: not as a collection, and
/// not as the empty one.
pub proof fn corrupt_passwords_do_not_load(vault: VaultImage)
    requires
        vault.passwords matches Some(text) && parsed(text) is None,
    ensures
        vault.loaded_passwords() is None,
{
}

/// An accounts file that is not JSON does not load: not as a collection, and
/// not as the empty one.
pub proof fn corrupt_accounts_do_not_load(vault: VaultImage)
    requires
        vault.two_factor_accounts matches Some(text) && parsed(text) is None,
    ensures
        vault.loaded_accounts() is None,
{
}

/// An import replaces: what is loaded after it is the bundle, whatever the
/// vault held before.
pub proof fn import_replaces(before: VaultImage, data: ExportRecord, after: VaultImage)
    requires
        before.imports(data, after),
    ensures
        after.loaded_passwords() == Some(Ok::<Seq<PasswordRecord>, Fault>(data.passwords)),
        after.loaded_accounts() == Some(
            Ok::<Seq<TwoFactorRecord>, Fault>(data.two_factor_accounts),
        ),
{
}

} // verus!
