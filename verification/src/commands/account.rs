//! Account lifecycle: each operation loads the registry, decides, and then
//! changes the vault and the store in the order that keeps them consistent.

use inquire::InquireError;
use vstd::prelude::*;
use vstd::string::StrSliceExecFns;
use vstd::string::StringExecFns;
use crate::error::{AppError, AppErrorView};
use crate::invariants::{lemma_activate, lemma_enroll_keeps_wf, lemma_remove_keeps_wf};
use crate::keychain::{done, held_secret, one_delete, one_retrieve, Vault, VaultCall};
use crate::models::{Account, AccountKind, AccountView, AccountsFile, AccountsFileView, Protocol};
use crate::storage::{one_save, save_done, Storage};
use crate::text::{
    find_char, has_prefix, index_of, is_white, lemma_index_of_is, opt_view, owned, str_eq, trim, trim_start,
    trim_tail, trimmed,
};

verus! {

/// The registry after a new account was enrolled: appended to the partition
/// of its kind, and made active if no account was.
pub open spec fn enrolled(reg: AccountsFileView, account: AccountView) -> AccountsFileView {
    let with = reg.with_account(account);
    if reg.active_account_id is None {
        with.with_active(account.id)
    } else {
        with
    }
}

/// Refuses an id that the registry already holds.
pub fn ensure_absent(accounts: &AccountsFile, id: &str) -> (res: Result<(), AppError>)
    ensures
        match res {
            Ok(()) => !accounts@.contains(id@),
            Err(e) => accounts@.contains(id@) && e@ == AppErrorView::DuplicateAccount(id@),
        },
{
    if accounts.find_account(id).is_some() {
        return Err(AppError::DuplicateAccount(owned(id)));
    }
    Ok(())
}

/// Enrolls `account`: adds it, and makes it active if no account is.
pub fn enroll(accounts: &mut AccountsFile, account: Account)
    ensures
        final(accounts)@ == enrolled(old(accounts)@, account@),
{
    let first = accounts.active_account_id.is_none();
    let id = account.id.clone();
    accounts.add_account(account);
    if first {
        accounts.active_account_id = Some(id);
    }
}

/// Makes `id` the active account, if the registry holds it.
pub fn activate(accounts: &mut AccountsFile, id: &str) -> (res: Result<(), AppError>)
    ensures
        match res {
            Ok(()) => old(accounts)@.contains(id@) && final(accounts)@ == old(accounts)@.with_active(
                id@,
            ),
            Err(e) => !old(accounts)@.contains(id@) && e@ == AppErrorView::AccountNotFound(id@)
                && *final(accounts) == *old(accounts),
        },
{
    if accounts.find_account(id).is_none() {
        return Err(AppError::AccountNotFound(owned(id)));
    }
    accounts.active_account_id = Some(owned(id));
    Ok(())
}

/// The active account, or the error that none is.
pub fn active_of(accounts: &AccountsFile) -> (res: Result<Account, AppError>)
    ensures
        match accounts@.active() {
            Some(a) => res matches Ok(r) && r@ == a,
            None => res matches Err(e) && e@ == AppErrorView::NoActiveAccount,
        },
{
    match accounts.active_account() {
        Some(a) => Ok(a.clone()),
        None => Err(AppError::NoActiveAccount),
    }
}

/// What an account made from these arguments holds.
pub open spec fn new_account(
    id: Seq<char>,
    username: Seq<char>,
    kind: AccountKind,
    default_org: Option<Seq<char>>,
    protocol: Protocol,
    clone_dir: Option<Seq<char>>,
) -> AccountView {
    AccountView { id, kind, username, default_org, protocol, clone_dir }
}

/// What the store has been asked and holds after an account with a new id
/// was added, given whether the secret was stored and how the add ended.
/// Where the secret was not stored, the store was not touched. Where it
/// was, one save was asked for, of the registry with the new account
/// enrolled, and the add succeeded exactly if that save was done.
pub open spec fn store_after_add<S: Storage>(
    before: S,
    after: S,
    stored: bool,
    registry: AccountsFileView,
    added: bool,
) -> bool {
    if !stored {
        after == before
    } else {
        &&& one_save(before.saves(), after.saves(), registry)
        &&& save_done(after.saves().last()) == added
        &&& after.accounts_doc() == if added {
            registry
        } else {
            before.accounts_doc()
        }
    }
}

/// What the vault has been asked and holds after an account with a new id
/// was added, given what it had been asked and held before, and how the add
/// ended. First the secret was to be stored. If that failed, nothing else
/// was asked. If it was done and the add succeeded, nothing else was asked
/// either. If it was done and the add failed, the secret was to be deleted
/// again, once, and the vault holds it still only where that failed.
pub open spec fn vault_after_add(
    before: Seq<VaultCall>,
    held: Map<Seq<char>, Seq<char>>,
    after: Seq<VaultCall>,
    holds: Map<Seq<char>, Seq<char>>,
    id: Seq<char>,
    secret: Seq<char>,
    added: bool,
) -> bool {
    let k = before.len() as int;
    &&& after.len() > k
    &&& after.subrange(0, k) == before
    &&& after[k] matches VaultCall::Store { id: i, secret: s, .. } && i == id && s == secret
    &&& if !done(after[k]) {
        &&& !added
        &&& after.len() == k + 1
        &&& holds == held
    } else if added {
        &&& after.len() == k + 1
        &&& holds == held.insert(id, secret)
    } else {
        &&& after.len() == k + 2
        &&& after[k + 1] matches VaultCall::Delete { id: j, .. } && j == id
        &&& holds == if done(after[k + 1]) {
            held.insert(id, secret).remove(id)
        } else {
            held.insert(id, secret)
        }
    }
}

/// Ends an add, given how the save of the registry ended. After a save
/// that was done there is nothing left to do. After one that failed, the
/// secret stored for the new account is taken out of the vault again, as
/// far as the vault allows: one delete is asked for, and whether it is done
/// or not, the error of the save is what comes back.
pub fn add_saved<V: Vault>(saved: Result<(), AppError>, vault: &mut V, id: &str) -> (res: Result<
    (),
    AppError,
>)
    ensures
        final(vault).override_secret() == old(vault).override_secret(),
        match saved {
            Ok(()) => res is Ok && *final(vault) == *old(vault),
            Err(e) => {
                &&& res == Err::<(), AppError>(e)
                &&& one_delete(old(vault).calls(), final(vault).calls(), id@)
                &&& final(vault).secrets() == if done(final(vault).calls().last()) {
                    old(vault).secrets().remove(id@)
                } else {
                    old(vault).secrets()
                }
            },
        },
{
    match saved {
        Ok(()) => Ok(()),
        Err(e) => {
            let _ = vault.delete(id);
            assert(final(vault).calls().drop_last() =~= old(vault).calls()) by {
                assert(vault.calls().drop_last() =~= old(vault).calls());
            }
            Err(e)
        },
    }
}

/// Goes on with an add, given how the store of the secret ended. After a
/// store that failed, its error comes back and neither the registry, the
/// store nor the vault is touched. After one that was done, the account is
/// enrolled and the registry saved, and the add ends as [`add_saved`] says.
pub fn add_stored<S: Storage, V: Vault>(
    stored: Result<(), AppError>,
    accounts: AccountsFile,
    account: Account,
    storage: &mut S,
    vault: &mut V,
) -> (res: Result<(), AppError>)
    ensures
        final(storage).state_doc() == old(storage).state_doc(),
        final(vault).override_secret() == old(vault).override_secret(),
        accounts@.wf() && !accounts@.contains(account@.id) && res is Ok ==> {
            final(storage).accounts_doc().wf()
        },
        match stored {
            Err(e) => {
                &&& res == Err::<(), AppError>(e)
                &&& *final(storage) == *old(storage)
                &&& *final(vault) == *old(vault)
            },
            Ok(()) => match res {
                Ok(()) => {
                    &&& one_save(
                        old(storage).saves(),
                        final(storage).saves(),
                        enrolled(accounts@, account@),
                    )
                    &&& save_done(final(storage).saves().last())
                    &&& final(storage).accounts_doc() == enrolled(accounts@, account@)
                    &&& *final(vault) == *old(vault)
                },
                Err(_) => {
                    &&& one_save(
                        old(storage).saves(),
                        final(storage).saves(),
                        enrolled(accounts@, account@),
                    )
                    &&& !save_done(final(storage).saves().last())
                    &&& final(storage).accounts_doc() == old(storage).accounts_doc()
                    &&& one_delete(old(vault).calls(), final(vault).calls(), account@.id)
                    &&& final(vault).secrets() == if done(final(vault).calls().last()) {
                        old(vault).secrets().remove(account@.id)
                    } else {
                        old(vault).secrets()
                    }
                },
            },
        },
{
    match stored {
        Err(e) => Err(e),
        Ok(()) => {
            let mut accounts = accounts;
            let id = account.id.clone();
            proof {
                if accounts@.wf() && !accounts@.contains(account@.id) {
                    lemma_enroll_keeps_wf(accounts@, account@);
                }
            }
            enroll(&mut accounts, account);
            let saved = storage.save_accounts(&accounts);
            assert(storage.saves().drop_last() =~= old(storage).saves());
            add_saved(saved, vault, id.as_str())
        },
    }
}

/// Adds an account to a loaded registry. An id that the registry holds is
/// refused, and nothing is touched. Else the secret goes to the vault
/// first, and what follows is what [`add_stored`] says of the vault's
/// answer: what the vault was asked, and what it holds in the end, is what
/// [`vault_after_add`] says.
pub fn add_loaded<S: Storage, V: Vault>(
    accounts: AccountsFile,
    storage: &mut S,
    vault: &mut V,
    id: &str,
    username: &str,
    kind: AccountKind,
    token: &str,
    default_org: Option<String>,
    protocol: Protocol,
    clone_dir: Option<String>,
) -> (res: Result<(), AppError>)
    ensures
        final(storage).state_doc() == old(storage).state_doc(),
        final(vault).override_secret() == old(vault).override_secret(),
        accounts@.wf() && res is Ok ==> final(storage).accounts_doc().wf(),
        accounts@.contains(id@) ==> {
            &&& res matches Err(e) && e@ == AppErrorView::DuplicateAccount(id@)
            &&& *final(storage) == *old(storage)
            &&& *final(vault) == *old(vault)
        },
        !accounts@.contains(id@) ==> {
            &&& vault_after_add(
                old(vault).calls(),
                old(vault).secrets(),
                final(vault).calls(),
                final(vault).secrets(),
                id@,
                token@,
                res is Ok,
            )
            &&& store_after_add(
                *old(storage),
                *final(storage),
                done(final(vault).calls()[old(vault).calls().len() as int]),
                enrolled(
                    accounts@,
                    new_account(
                        id@,
                        username@,
                        kind,
                        opt_view(default_org),
                        protocol,
                        opt_view(clone_dir),
                    ),
                ),
                res is Ok,
            )
        },
{
    ensure_absent(&accounts, id)?;
    let account = Account {
        id: owned(id),
        kind,
        username: owned(username),
        default_org,
        protocol,
        clone_dir,
    };
    let stored = vault.store(id, token);
    let ghost k = old(vault).calls().len() as int;
    let ghost mid = vault.calls();
    assert(mid.subrange(0, k) =~= old(vault).calls());
    let res = add_stored(stored, accounts, account, storage, vault);
    proof {
        let after = vault.calls();
        if after.len() == k + 2 {
            assert(after.drop_last() == mid);
            assert(after.subrange(0, k) =~= mid.subrange(0, k));
            assert(after[k] == mid[k]);
        }
    }
    res
}

/// Adds an account: loads the registry, then goes on as [`add_loaded`].
/// Whatever fails, the accounts document is left as it was. Where the load
/// fails, or the document holds the id already, neither the store nor the
/// vault is touched.
pub fn add<S: Storage, V: Vault>(
    storage: &mut S,
    vault: &mut V,
    id: &str,
    username: &str,
    kind: AccountKind,
    token: &str,
    default_org: Option<String>,
    protocol: Protocol,
    clone_dir: Option<String>,
) -> (res: Result<(), AppError>)
    ensures
        final(storage).state_doc() == old(storage).state_doc(),
        final(vault).override_secret() == old(vault).override_secret(),
        old(storage).accounts_doc().wf() ==> final(storage).accounts_doc().wf(),
        old(storage).accounts_doc().contains(id@) ==> {
            &&& res is Err
            &&& *final(storage) == *old(storage)
            &&& *final(vault) == *old(vault)
        },
        ({
            ||| {
                &&& res is Err
                &&& *final(storage) == *old(storage)
                &&& *final(vault) == *old(vault)
            }
            ||| {
                &&& !old(storage).accounts_doc().contains(id@)
                &&& vault_after_add(
                    old(vault).calls(),
                    old(vault).secrets(),
                    final(vault).calls(),
                    final(vault).secrets(),
                    id@,
                    token@,
                    res is Ok,
                )
                &&& store_after_add(
                    *old(storage),
                    *final(storage),
                    done(final(vault).calls()[old(vault).calls().len() as int]),
                    enrolled(
                        old(storage).accounts_doc(),
                        new_account(
                            id@,
                            username@,
                            kind,
                            opt_view(default_org),
                            protocol,
                            opt_view(clone_dir),
                        ),
                    ),
                    res is Ok,
                )
            }
        }),
        match res {
            Ok(()) => {
                &&& !old(storage).accounts_doc().contains(id@)
                &&& final(storage).accounts_doc() == enrolled(
                    old(storage).accounts_doc(),
                    new_account(
                        id@,
                        username@,
                        kind,
                        opt_view(default_org),
                        protocol,
                        opt_view(clone_dir),
                    ),
                )
                &&& final(vault).secrets() == old(vault).secrets().insert(id@, token@)
            },
            Err(_) => final(storage).accounts_doc() == old(storage).accounts_doc(),
        },
{
    let accounts = storage.load_accounts()?;
    add_loaded(
        accounts,
        storage,
        vault,
        id,
        username,
        kind,
        token,
        default_org,
        protocol,
        clone_dir,
    )
}

/// The registry as the store holds it. Nothing is changed.
pub fn list<S: Storage>(storage: &S) -> (res: Result<AccountsFile, AppError>)
    ensures
        res matches Ok(a) ==> a@ == storage.accounts_doc(),
{
    storage.load_accounts()
}

/// Makes `id` active in a loaded registry and saves it. An id that the
/// registry does not hold is refused and nothing is saved.
pub fn switch_loaded<S: Storage>(accounts: AccountsFile, storage: &mut S, id: &str) -> (res:
    Result<(), AppError>)
    ensures
        final(storage).state_doc() == old(storage).state_doc(),
        accounts@.wf() && res is Ok ==> final(storage).accounts_doc().wf(),
        !accounts@.contains(id@) ==> {
            &&& res matches Err(e) && e@ == AppErrorView::AccountNotFound(id@)
            &&& *final(storage) == *old(storage)
        },
        accounts@.contains(id@) ==> {
            &&& one_save(old(storage).saves(), final(storage).saves(), accounts@.with_active(id@))
            &&& save_done(final(storage).saves().last()) == (res is Ok)
            &&& match res {
                Ok(()) => final(storage).accounts_doc() == accounts@.with_active(id@),
                Err(_) => final(storage).accounts_doc() == old(storage).accounts_doc(),
            }
        },
{
    let mut accounts = accounts;
    proof {
        if accounts@.wf() && accounts@.contains(id@) {
            lemma_activate(accounts@, id@);
        }
    }
    activate(&mut accounts, id)?;
    let saved = storage.save_accounts(&accounts);
    assert(storage.saves().drop_last() =~= old(storage).saves());
    saved
}

/// Switches the active account: loads the registry, then goes on as
/// [`switch_loaded`].
pub fn switch<S: Storage>(storage: &mut S, id: &str) -> (res: Result<(), AppError>)
    ensures
        final(storage).state_doc() == old(storage).state_doc(),
        old(storage).accounts_doc().wf() ==> final(storage).accounts_doc().wf(),
        !old(storage).accounts_doc().contains(id@) ==> {
            &&& res is Err
            &&& *final(storage) == *old(storage)
        },
        ({
            ||| res is Err && *final(storage) == *old(storage)
            ||| {
                &&& old(storage).accounts_doc().contains(id@)
                &&& one_save(
                    old(storage).saves(),
                    final(storage).saves(),
                    old(storage).accounts_doc().with_active(id@),
                )
                &&& save_done(final(storage).saves().last()) == (res is Ok)
            }
        }),
        match res {
            Ok(()) => {
                &&& old(storage).accounts_doc().contains(id@)
                &&& final(storage).accounts_doc() == old(storage).accounts_doc().with_active(id@)
            },
            Err(_) => final(storage).accounts_doc() == old(storage).accounts_doc(),
        },
{
    let accounts = storage.load_accounts()?;
    switch_loaded(accounts, storage, id)
}

/// The active account, without its secret.
pub fn show<S: Storage>(storage: &S) -> (res: Result<Account, AppError>)
    ensures
        match res {
            Ok(a) => storage.accounts_doc().active() == Some(a@),
            Err(_) => true,
        },
        storage.accounts_doc().active() is None ==> res is Err,
{
    let accounts = storage.load_accounts()?;
    active_of(&accounts)
}

/// Ends a removal, given how the save of the registry ended. After a save
/// that failed, its error comes back and the vault is not touched. After
/// one that was done, the secret of the account is taken out of the vault,
/// as far as the vault allows: one delete is asked for, and whether it is
/// done or not, the removal has succeeded.
pub fn remove_saved<V: Vault>(saved: Result<(), AppError>, vault: &mut V, id: &str) -> (res:
    Result<(), AppError>)
    ensures
        final(vault).override_secret() == old(vault).override_secret(),
        match saved {
            Err(e) => res == Err::<(), AppError>(e) && *final(vault) == *old(vault),
            Ok(()) => {
                &&& res is Ok
                &&& one_delete(old(vault).calls(), final(vault).calls(), id@)
                &&& final(vault).secrets() == if done(final(vault).calls().last()) {
                    old(vault).secrets().remove(id@)
                } else {
                    old(vault).secrets()
                }
            },
        },
{
    match saved {
        Err(e) => Err(e),
        Ok(()) => {
            let _ = vault.delete(id);
            assert(vault.calls().drop_last() =~= old(vault).calls());
            Ok(())
        },
    }
}

/// Removes `id` from a loaded registry and saves it; what follows the save
/// is what [`remove_saved`] says. An id that the registry does not hold is
/// refused, and neither the store nor the vault is touched.
pub fn remove_loaded<S: Storage, V: Vault>(
    accounts: AccountsFile,
    storage: &mut S,
    vault: &mut V,
    id: &str,
) -> (res: Result<(), AppError>)
    ensures
        final(storage).state_doc() == old(storage).state_doc(),
        final(vault).override_secret() == old(vault).override_secret(),
        accounts@.wf() && res is Ok ==> final(storage).accounts_doc().wf(),
        accounts@.wf() && res is Ok ==> !final(storage).accounts_doc().contains(id@),
        !accounts@.contains(id@) ==> {
            &&& res matches Err(e) && e@ == AppErrorView::AccountNotFound(id@)
            &&& *final(storage) == *old(storage)
            &&& *final(vault) == *old(vault)
        },
        accounts@.contains(id@) ==> one_save(
            old(storage).saves(),
            final(storage).saves(),
            accounts@.without(id@),
        ) && save_done(final(storage).saves().last()) == (res is Ok),
        accounts@.contains(id@) ==> match res {
            Ok(()) => {
                &&& final(storage).accounts_doc() == accounts@.without(id@)
                &&& one_delete(old(vault).calls(), final(vault).calls(), id@)
                &&& final(vault).secrets() == if done(final(vault).calls().last()) {
                    old(vault).secrets().remove(id@)
                } else {
                    old(vault).secrets()
                }
            },
            Err(_) => {
                &&& final(storage).accounts_doc() == old(storage).accounts_doc()
                &&& *final(vault) == *old(vault)
            },
        },
{
    let mut accounts = accounts;
    proof {
        if accounts@.wf() && accounts@.contains(id@) {
            lemma_remove_keeps_wf(accounts@, id@);
        }
    }
    if accounts.remove_account(id).is_none() {
        return Err(AppError::AccountNotFound(owned(id)));
    }
    let saved = storage.save_accounts(&accounts);
    assert(storage.saves().drop_last() =~= old(storage).saves());
    remove_saved(saved, vault, id)
}

/// Removes an account: loads the registry, then goes on as
/// [`remove_loaded`].
pub fn remove<S: Storage, V: Vault>(storage: &mut S, vault: &mut V, id: &str) -> (res: Result<
    (),
    AppError,
>)
    ensures
        final(storage).state_doc() == old(storage).state_doc(),
        final(vault).override_secret() == old(vault).override_secret(),
        old(storage).accounts_doc().wf() ==> final(storage).accounts_doc().wf(),
        !old(storage).accounts_doc().contains(id@) ==> {
            &&& res is Err
            &&& *final(storage) == *old(storage)
            &&& *final(vault) == *old(vault)
        },
        ({
            ||| res is Err && *final(storage) == *old(storage)
            ||| {
                &&& old(storage).accounts_doc().contains(id@)
                &&& one_save(
                    old(storage).saves(),
                    final(storage).saves(),
                    old(storage).accounts_doc().without(id@),
                )
                &&& save_done(final(storage).saves().last()) == (res is Ok)
            }
        }),
        match res {
            Ok(()) => {
                &&& old(storage).accounts_doc().contains(id@)
                &&& final(storage).accounts_doc() == old(storage).accounts_doc().without(id@)
                &&& one_delete(old(vault).calls(), final(vault).calls(), id@)
                &&& final(vault).secrets() == if done(final(vault).calls().last()) {
                    old(vault).secrets().remove(id@)
                } else {
                    old(vault).secrets()
                }
            },
            Err(_) => {
                &&& final(storage).accounts_doc() == old(storage).accounts_doc()
                &&& *final(vault) == *old(vault)
            },
        },
{
    let accounts = storage.load_accounts()?;
    remove_loaded(accounts, storage, vault, id)
}

/// An account together with its secret, given how the retrieval of the
/// secret ended: an error of the vault comes back as it is, a secret comes
/// back beside the account.
pub fn with_secret(account: Account, retrieved: Result<String, AppError>) -> (res: Result<
    (Account, String),
    AppError,
>)
    ensures
        match retrieved {
            Ok(t) => res == Ok::<(Account, String), AppError>((account, t)),
            Err(e) => res == Err::<(Account, String), AppError>(e),
        },
{
    match retrieved {
        Ok(t) => Ok((account, t)),
        Err(e) => Err(e),
    }
}

/// What the vault has been asked, and what came back, after the secret of
/// the account `id` was to be had: one retrieval for that id and nothing
/// else; the result is `Ok` exactly if it was done, and then the secret is
/// the one the vault can give for the id.
pub open spec fn retrieved_for<V: Vault>(
    before: V,
    after: V,
    id: Seq<char>,
    secret: Option<Seq<char>>,
) -> bool {
    &&& one_retrieve(before.calls(), after.calls(), id)
    &&& done(after.calls().last()) == (secret is Some)
    &&& secret is Some ==> secret == held_secret(before.override_secret(), before.secrets(), id)
    &&& before.override_secret() is Some ==> secret is Some
}

/// The secret in a result, as plain values.
pub open spec fn secret_in(res: Result<(Account, String), AppError>) -> Option<Seq<char>> {
    match res {
        Ok((_, t)) => Some(t@),
        Err(_) => None,
    }
}

/// The active account of a loaded registry together with its secret. With
/// no active account the vault is not asked. Else the secret of the active
/// account, and of no other, is retrieved once, and what comes back is
/// what [`with_secret`] says of the vault's answer.
pub fn token_of<V: Vault>(accounts: &AccountsFile, vault: &mut V) -> (res: Result<
    (Account, String),
    AppError,
>)
    ensures
        final(vault).secrets() == old(vault).secrets(),
        final(vault).override_secret() == old(vault).override_secret(),
        match accounts@.active() {
            None => (res matches Err(e) && e@ == AppErrorView::NoActiveAccount) && *final(vault)
                == *old(vault),
            Some(a) => {
                &&& retrieved_for(*old(vault), *final(vault), a.id, secret_in(res))
                &&& res matches Ok((r, _)) ==> r@ == a
            },
        },
{
    let account = active_of(accounts)?;
    let retrieved = vault.retrieve(account.id.as_str());
    assert(vault.calls().drop_last() =~= old(vault).calls());
    with_secret(account, retrieved)
}

/// Whether what was asked of the vault is what getting the active account
/// and its secret asks: nothing at all, or one retrieval of the secret of
/// the active account. Either way the vault holds what it held.
pub open spec fn sign_in_asked<S: Storage, V: Vault>(storage: S, before: V, after: V) -> bool {
    ||| after == before
    ||| {
        &&& storage.accounts_doc().active() matches Some(a)
        &&& one_retrieve(before.calls(), after.calls(), a.id)
        &&& after.secrets() == before.secrets()
        &&& after.override_secret() == before.override_secret()
    }
}

/// The active account and the secret that was got for it, read off what
/// was asked of the vault: there are none unless the secret of the active
/// account was retrieved, and that was done.
pub open spec fn signed_in<S: Storage, V: Vault>(storage: S, before: V, after: V) -> Option<
    (AccountView, Seq<char>),
> {
    match storage.accounts_doc().active() {
        Some(a) => if one_retrieve(before.calls(), after.calls(), a.id) && done(
            after.calls().last(),
        ) {
            match held_secret(before.override_secret(), before.secrets(), a.id) {
                Some(t) => Some((a, t)),
                None => None,
            }
        } else {
            None
        },
        None => None,
    }
}

/// The active account and its secret: what every remote operation starts
/// from. An error of the store or of the vault is passed on unchanged.
/// Where the registry cannot be loaded or has no active account, the vault
/// is not asked; else it is asked once, as [`token_of`] says. What comes
/// back is what [`signed_in`] reads off the vault's record.
pub fn get_active_with_token<S: Storage, V: Vault>(storage: &S, vault: &mut V) -> (res: Result<
    (Account, String),
    AppError,
>)
    ensures
        final(vault).secrets() == old(vault).secrets(),
        final(vault).override_secret() == old(vault).override_secret(),
        storage.accounts_doc().active() is None ==> res is Err && *final(vault) == *old(vault),
        sign_in_asked(*storage, *old(vault), *final(vault)),
        match res {
            Ok((r, t)) => signed_in(*storage, *old(vault), *final(vault)) == Some((r@, t@)),
            Err(_) => signed_in(*storage, *old(vault), *final(vault)) is None,
        },
{
    let accounts = storage.load_accounts()?;
    token_of(&accounts, vault)
}

#[verifier::external_type_specification]
#[verifier::external_body]
pub struct ExInquireError(InquireError);

/// `atty::is` on the standard input: whether it is a terminal. The answer
/// depends on how the process was started; nothing is claimed of it.
#[verifier::external_body]
fn stdin_is_tty() -> bool {
    atty::is(atty::Stream::Stdin)
}

/// `inquire::Select::new(..).prompt()`: shows `options` under `message` and
/// waits for the user to pick one. Whether a line comes back, and which,
/// depends on the user and the terminal; a line that comes back is one of
/// the options.
#[verifier::external_body]
fn prompt_select(message: &str, options: Vec<String>) -> (res: Result<String, InquireError>)
    ensures
        res matches Ok(line) ==> exists|i: int|
            0 <= i < options@.len() && (#[trigger] options@[i])@ == line@,
{
    inquire::Select::new(message, options).prompt()
}

/// The text `InquireError` displays. Nothing is claimed of it.
#[verifier::external_body]
fn prompt_error_text(e: &InquireError) -> String {
    e.to_string()
}

/// The line that offers an account for selection.
pub open spec fn label(account: AccountView, active: bool) -> Seq<char> {
    account.id + " ("@ + account.username + ")"@ + if active {
        " (active)"@
    } else {
        Seq::empty()
    }
}

/// The line that offers `account` for selection: its id, its user name in
/// parentheses and, for the active account, a mark.
pub fn selection_label(account: &Account, active: bool) -> (res: String)
    ensures
        res@ == label(account@, active),
{
    let mut out = account.id.clone();
    out.append(" (");
    out.append(account.username.as_str());
    out.append(")");
    if active {
        out.append(" (active)");
    }
    assert(out@ =~= label(account@, active));
    out
}

/// One line per account, personal first, then work; the active account is
/// marked.
pub fn selection_labels(accounts: &AccountsFile) -> (res: Vec<String>)
    ensures
        res@.len() == accounts@.all().len(),
        forall|i: int|
            0 <= i < res@.len() ==> (#[trigger] res@[i])@ == label(
                accounts@.all()[i],
                accounts@.active_account_id == Some(accounts@.all()[i].id),
            ),
{
    let all = accounts.all_accounts();
    let mut out: Vec<String> = Vec::new();
    let mut i: usize = 0;
    while i < all.len()
        invariant
            i <= all.len(),
            out@.len() == i,
            all@.len() == accounts@.all().len(),
            forall|k: int| 0 <= k < all@.len() ==> (#[trigger] all@[k])@ == accounts@.all()[k],
            forall|k: int|
                0 <= k < i ==> (#[trigger] out@[k])@ == label(
                    accounts@.all()[k],
                    accounts@.active_account_id == Some(accounts@.all()[k].id),
                ),
        decreases all.len() - i,
    {
        let active = match &accounts.active_account_id {
            Some(id) => str_eq(id.as_str(), all[i].id.as_str()),
            None => false,
        };
        out.push(selection_label(all[i], active));
        i += 1;
    }
    out
}

/// The id that a selected line names: what stands before its first opening
/// parenthesis, without white space at either end.
pub open spec fn selection_id(selection: Seq<char>) -> Seq<char> {
    trimmed(selection.subrange(0, index_of(selection, '(')))
}

/// Whether an id can be read back off its line: it is not empty, has no
/// opening parenthesis, and neither begins nor ends with white space.
pub open spec fn plain_id(id: Seq<char>) -> bool {
    &&& id.len() > 0
    &&& !id.contains('(')
    &&& !is_white(id[0])
    &&& !is_white(id.last())
}

/// The line of an account with a plain id names that id again.
pub proof fn lemma_label_names_id(account: AccountView, active: bool)
    requires
        plain_id(account.id),
    ensures
        selection_id(label(account, active)) == account.id,
{
    reveal_strlit(" (");
    let id = account.id;
    let line = label(account, active);
    let n = id.len() as int;
    assert(line[n] == ' ');
    assert(line[n + 1] == '(');
    assert forall|k: int| 0 <= k < n + 1 implies line[k] != '(' by {
        if k < n {
            assert(line[k] == id[k]);
            assert(id.contains(id[k]));
        }
    }
    lemma_index_of_is(line, '(', n + 1);
    let head = line.subrange(0, n + 1);
    assert(head =~= id.push(' '));
    assert(head[0] == id[0]);
    assert(trim_start(head) == head);
    assert(is_white(' '));
    assert(head.drop_last() =~= id);
    assert(trim_tail(head) == trim_tail(id));
    assert(trim_tail(id) == id);
}

/// Reads the id off a selected line. A line that names no id is refused.
pub fn selected_id(selection: &str) -> (res: Result<String, AppError>)
    ensures
        match res {
            Ok(id) => id@ == selection_id(selection@) && id@.len() > 0,
            Err(e) => selection_id(selection@).len() == 0 && e@ == AppErrorView::Config(
                "could not parse selection: "@ + selection@,
            ),
        },
{
    let n = selection.unicode_len();
    assert(selection@.subrange(0, n as int) =~= selection@);
    let cut = find_char(selection, '(', 0);
    let id = trim(selection.substring_char(0, cut));
    if id.unicode_len() == 0 {
        let mut detail = String::from_str("could not parse selection: ");
        detail.append(selection);
        return Err(AppError::Config(detail));
    }
    Ok(owned(id))
}

/// Switches to the account that a selected line names. A line that names
/// no id is refused with the error of [`selected_id`], and the store is not
/// touched.
pub fn switch_selected<S: Storage>(storage: &mut S, selection: &str) -> (res: Result<
    String,
    AppError,
>)
    ensures
        final(storage).state_doc() == old(storage).state_doc(),
        selection_id(selection@).len() == 0 ==> {
            &&& res matches Err(e) && e@ == AppErrorView::Config(
                "could not parse selection: "@ + selection@,
            )
            &&& *final(storage) == *old(storage)
        },
        !old(storage).accounts_doc().contains(selection_id(selection@)) ==> {
            &&& res is Err
            &&& *final(storage) == *old(storage)
        },
        match res {
            Ok(id) => {
                &&& id@ == selection_id(selection@)
                &&& old(storage).accounts_doc().contains(id@)
                &&& final(storage).accounts_doc() == old(storage).accounts_doc().with_active(id@)
            },
            Err(_) => final(storage).accounts_doc() == old(storage).accounts_doc(),
        },
{
    let id = selected_id(selection)?;
    switch(storage, id.as_str())?;
    Ok(id)
}

/// Goes on from the answer to the prompt: a prompt that gave no line back
/// is a configuration error that says so, and the store is not touched; a
/// line is handled as [`switch_selected`] does.
pub fn switch_answered<S: Storage>(storage: &mut S, answer: Result<String, InquireError>) -> (res:
    Result<String, AppError>)
    ensures
        final(storage).state_doc() == old(storage).state_doc(),
        answer is Err ==> {
            &&& res matches Err(e) && e@ matches AppErrorView::Config(detail) && has_prefix(
                detail,
                "selection cancelled: "@,
            )
            &&& *final(storage) == *old(storage)
        },
        answer matches Ok(selection) ==> {
            &&& selection_id(selection@).len() == 0 ==> {
                &&& res matches Err(e) && e@ == AppErrorView::Config(
                    "could not parse selection: "@ + selection@,
                )
                &&& *final(storage) == *old(storage)
            }
            &&& !old(storage).accounts_doc().contains(selection_id(selection@)) ==> res is Err
                && *final(storage) == *old(storage)
            &&& res matches Ok(id) ==> id@ == selection_id(selection@)
        },
        match res {
            Ok(id) => {
                &&& old(storage).accounts_doc().contains(id@)
                &&& final(storage).accounts_doc() == old(storage).accounts_doc().with_active(id@)
            },
            Err(_) => final(storage).accounts_doc() == old(storage).accounts_doc(),
        },
{
    match answer {
        Ok(selection) => switch_selected(storage, selection.as_str()),
        Err(e) => {
            let mut detail = String::from_str("selection cancelled: ");
            let ghost head = detail@;
            detail.append(prompt_error_text(&e).as_str());
            assert(detail@.subrange(0, head.len() as int) =~= head);
            Err(AppError::Config(detail))
        },
    }
}

/// Interactive selection needs a terminal: without one it is refused.
pub fn require_terminal(on_terminal: bool) -> (res: Result<(), AppError>)
    ensures
        on_terminal ==> res is Ok,
        !on_terminal ==> (res matches Err(e) && e@ == AppErrorView::TtyRequired),
{
    if on_terminal {
        Ok(())
    } else {
        Err(AppError::TtyRequired)
    }
}

/// The lines that are offered for selection, as [`selection_labels`] gives
/// them. A registry without accounts has nothing to offer and is refused.
pub fn offered(accounts: &AccountsFile) -> (res: Result<Vec<String>, AppError>)
    ensures
        match res {
            Ok(lines) => {
                &&& accounts@.all().len() > 0
                &&& lines@.len() == accounts@.all().len()
                &&& forall|i: int|
                    0 <= i < lines@.len() ==> (#[trigger] lines@[i])@ == label(
                        accounts@.all()[i],
                        accounts@.active_account_id == Some(accounts@.all()[i].id),
                    )
            },
            Err(e) => accounts@.all().len() == 0 && e@ == AppErrorView::Config(
                "no accounts configured"@,
            ),
        },
{
    let lines = selection_labels(accounts);
    if lines.len() == 0 {
        return Err(AppError::config("no accounts configured"));
    }
    Ok(lines)
}

/// Switches the active account by asking the user. The standard input must
/// be a terminal, as [`require_terminal`] says; then the registry is
/// loaded and its accounts are offered, as [`offered`] says; what the user
/// answers is handled as [`switch_answered`] does. The id that comes back
/// is the one read off one of the lines that were offered.
pub fn switch_interactive<S: Storage>(storage: &mut S) -> (res: Result<String, AppError>)
    ensures
        final(storage).state_doc() == old(storage).state_doc(),
        old(storage).accounts_doc().all().len() == 0 ==> res is Err && *final(storage) == *old(
            storage,
        ),
        match res {
            Ok(id) => {
                let reg = old(storage).accounts_doc();
                &&& reg.contains(id@)
                &&& final(storage).accounts_doc() == reg.with_active(id@)
                &&& exists|k: int|
                    0 <= k < reg.all().len() && id@ == selection_id(
                        label(#[trigger] reg.all()[k], reg.active_account_id == Some(reg.all()[k].id)),
                    )
            },
            Err(_) => final(storage).accounts_doc() == old(storage).accounts_doc(),
        },
{
    require_terminal(stdin_is_tty())?;
    let accounts = storage.load_accounts()?;
    let options = offered(&accounts)?;
    let ghost lines = options@;
    let answer = prompt_select("Select account:", options);
    proof {
        if answer is Ok {
            let line = answer->Ok_0@;
            let i = choose|i: int| 0 <= i < lines.len() && (#[trigger] lines[i])@ == line;
            let reg = accounts@;
            assert(line == label(reg.all()[i], reg.active_account_id == Some(reg.all()[i].id)));
        }
    }
    switch_answered(storage, answer)
}

} // verus!
