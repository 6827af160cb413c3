//! The secret vault: its interface, and how a secret is shown.

use keyring::Entry;
use vstd::prelude::*;
use vstd::string::StringExecFns;
use vstd::string::StringSliceAdditionalSpecFns;
use vstd::utf8::{decode_utf8, encode_utf8_decode_utf8, is_char_boundary};
use crate::error::{AppError, AppErrorView};
use crate::text::has_prefix;

verus! {

/// One call that changes a vault, with how it ended.
pub enum VaultCall {
    /// A secret was to be stored under an id.
    Store { id: Seq<char>, secret: Seq<char>, done: bool },
    /// The secret under an id was to be deleted.
    Delete { id: Seq<char>, done: bool },
    /// The secret under an id was asked for.
    Retrieve { id: Seq<char>, done: bool },
}

/// Whether `after` is `before` with one more call at its end: an attempt to
/// delete the secret of `id`.
pub open spec fn one_delete(before: Seq<VaultCall>, after: Seq<VaultCall>, id: Seq<char>) -> bool {
    &&& after.len() == before.len() + 1
    &&& after.drop_last() == before
    &&& after.last() matches VaultCall::Delete { id: i, .. } && i == id
}

/// Whether `after` is `before` with one more call at its end: the secret
/// of `id` was asked for.
pub open spec fn one_retrieve(before: Seq<VaultCall>, after: Seq<VaultCall>, id: Seq<char>) -> bool {
    &&& after.len() == before.len() + 1
    &&& after.drop_last() == before
    &&& after.last() matches VaultCall::Retrieve { id: i, .. } && i == id
}

/// Whether a call ended well.
pub open spec fn done(call: VaultCall) -> bool {
    match call {
        VaultCall::Store { done, .. } => done,
        VaultCall::Delete { done, .. } => done,
        VaultCall::Retrieve { done, .. } => done,
    }
}

/// The secret that a retrieval for `id` can give: the override if one is
/// set, else what the vault holds under the id, if anything.
pub open spec fn held_secret(
    fixed: Option<Seq<char>>,
    secrets: Map<Seq<char>, Seq<char>>,
    id: Seq<char>,
) -> Option<Seq<char>> {
    match fixed {
        Some(s) => Some(s),
        None => if secrets.contains_key(id) {
            Some(secrets[id])
        } else {
            None
        },
    }
}

/// A vault of secrets, one per account id. An implementation answers for
/// what its methods promise; nothing here promises that the vault can be
/// reached.
pub trait Vault {
    /// The secrets the vault holds, by account id. An implementation with
    /// state of its own says here what that state stands for.
    closed spec fn secrets(&self) -> Map<Seq<char>, Seq<char>> {
        arbitrary()
    }

    /// The secret that retrieval gives back whatever the vault holds, if
    /// one is set.
    closed spec fn override_secret(&self) -> Option<Seq<char>> {
        arbitrary()
    }

    /// The calls that were to change this vault, oldest first, each with
    /// how it ended. It records what was asked; it claims nothing of the
    /// vault.
    closed spec fn calls(&self) -> Seq<VaultCall> {
        arbitrary()
    }

    /// Puts `secret` under `account_id`, replacing what was there. A store
    /// that fails leaves the vault as it was.
    fn store(&mut self, account_id: &str, secret: &str) -> (res: Result<(), AppError>)
        ensures
            res is Ok ==> final(self).secrets() == old(self).secrets().insert(
                account_id@,
                secret@,
            ),
            res is Err ==> final(self).secrets() == old(self).secrets(),
            final(self).override_secret() == old(self).override_secret(),
            final(self).calls() == old(self).calls().push(
                VaultCall::Store { id: account_id@, secret: secret@, done: res is Ok },
            ),
    ;

    /// The secret of `account_id`. An override, if set, always wins and the
    /// vault is not asked. The vault holds after it what it held before.
    fn retrieve(&mut self, account_id: &str) -> (res: Result<String, AppError>)
        ensures
            old(self).override_secret() is Some ==> res is Ok,
            res matches Ok(t) ==> Some(t@) == held_secret(
                old(self).override_secret(),
                old(self).secrets(),
                account_id@,
            ),
            final(self).secrets() == old(self).secrets(),
            final(self).override_secret() == old(self).override_secret(),
            final(self).calls() == old(self).calls().push(
                VaultCall::Retrieve { id: account_id@, done: res is Ok },
            ),
    ;

    /// Takes out the secret of `account_id`. A delete that fails leaves the
    /// vault as it was.
    fn delete(&mut self, account_id: &str) -> (res: Result<(), AppError>)
        ensures
            res is Ok ==> final(self).secrets() == old(self).secrets().remove(account_id@),
            res is Err ==> final(self).secrets() == old(self).secrets(),
            final(self).override_secret() == old(self).override_secret(),
            final(self).calls() == old(self).calls().push(
                VaultCall::Delete { id: account_id@, done: res is Ok },
            ),
    ;
}

/// The override among two candidates: the first if it is set, else the
/// second.
pub fn token_override(first: Option<String>, second: Option<String>) -> (res: Option<String>)
    ensures
        res == if first is Some {
            first
        } else {
            second
        },
{
    match first {
        Some(t) => Some(t),
        None => second,
    }
}

#[verifier::external_type_specification]
#[verifier::external_body]
pub struct ExEntry(Entry);

#[verifier::external_type_specification]
#[verifier::external_body]
pub struct ExKeyringError(keyring::Error);

/// `keyring::Entry::new`: the entry of the credential store for a service
/// and a user. Whether there is one depends on the platform; nothing is
/// claimed of the result. The crate documents one panic, where its own
/// lock was poisoned by a thread that panicked while holding it.
pub assume_specification[ Entry::new ](service: &str, user: &str) -> Result<Entry, keyring::Error>;

/// `keyring::Entry::set_password`: writes a secret to the credential store.
/// Whether that works depends on the store; nothing is claimed of the
/// result.
pub assume_specification[ Entry::set_password ](entry: &Entry, password: &str) -> Result<
    (),
    keyring::Error,
>;

/// `keyring::Entry::get_password`: reads a secret from the credential
/// store. What is there depends on the store; nothing is claimed of the
/// result.
pub assume_specification[ Entry::get_password ](entry: &Entry) -> Result<String, keyring::Error>;

/// `keyring::Entry::delete_credential`: takes a secret out of the
/// credential store. Whether that works depends on the store; nothing is
/// claimed of the result.
pub assume_specification[ Entry::delete_credential ](entry: &Entry) -> Result<(), keyring::Error>;

/// The text `keyring::Error` displays. Nothing is claimed of it.
#[verifier::external_body]
fn store_error_text(e: &keyring::Error) -> String {
    e.to_string()
}

/// Name under which the credential store files the secrets of this tool.
pub const SERVICE_NAME: &'static str = "gho";

/// What a step at the credential store comes to: what the store gave is
/// handed on; a failure becomes an error of the vault whose text begins
/// with `what`, the step that failed, and goes on with what the store said.
pub fn store_outcome<T>(what: &str, outcome: Result<T, keyring::Error>) -> (res: Result<
    T,
    AppError,
>)
    ensures
        match outcome {
            Ok(v) => res == Ok::<T, AppError>(v),
            Err(_) => res matches Err(e) && e@ matches AppErrorView::Keychain(detail)
                && has_prefix(detail, what@),
        },
{
    match outcome {
        Ok(v) => Ok(v),
        Err(e) => {
            let mut detail = String::from_str(what);
            let ghost head = detail@;
            detail.append(store_error_text(&e).as_str());
            assert(detail@.subrange(0, head.len() as int) =~= head);
            Err(AppError::Keychain(detail))
        },
    }
}

/// Stores a secret in the credential store of the operating system: makes
/// the entry of the account, then sets its password. Each step comes to
/// what [`store_outcome`] says, and the first that fails ends the call.
pub fn store_token(account_id: &str, token: &str) -> (res: Result<(), AppError>)
    ensures
        res matches Err(e) ==> e@ matches AppErrorView::Keychain(detail) && (has_prefix(
            detail,
            "failed to create keychain entry: "@,
        ) || has_prefix(detail, "failed to store token: "@)),
{
    let made = Entry::new(SERVICE_NAME, account_id);
    let entry = store_outcome("failed to create keychain entry: ", made)?;
    store_outcome("failed to store token: ", entry.set_password(token))
}

/// Retrieves a secret. Where the caller's environment names one, that one
/// wins and the credential store is not asked. Else the entry of the
/// account is made and its password read, each step as [`store_outcome`]
/// says.
pub fn get_token(account_id: &str, named: Option<String>) -> (res: Result<String, AppError>)
    ensures
        named is Some ==> res == Ok::<String, AppError>(named->0),
        res matches Err(e) ==> e@ matches AppErrorView::Keychain(detail) && (has_prefix(
            detail,
            "failed to create keychain entry: "@,
        ) || has_prefix(detail, "failed to retrieve token: "@)),
{
    if let Some(token) = named {
        return Ok(token);
    }
    let made = Entry::new(SERVICE_NAME, account_id);
    let entry = store_outcome("failed to create keychain entry: ", made)?;
    store_outcome("failed to retrieve token: ", entry.get_password())
}

/// Deletes a secret from the credential store of the operating system:
/// makes the entry of the account, then deletes its credential. Each step
/// comes to what [`store_outcome`] says.
pub fn delete_token(account_id: &str) -> (res: Result<(), AppError>)
    ensures
        res matches Err(e) ==> e@ matches AppErrorView::Keychain(detail) && (has_prefix(
            detail,
            "failed to create keychain entry: "@,
        ) || has_prefix(detail, "failed to delete token: "@)),
{
    let made = Entry::new(SERVICE_NAME, account_id);
    let entry = store_outcome("failed to create keychain entry: ", made)?;
    store_outcome("failed to delete token: ", entry.delete_credential())
}

/// A secret as it is displayed, over its UTF-8 bytes: up to eight bytes
/// become one star each; a longer one keeps its first and last four bytes
/// around three dots.
pub open spec fn masked(bytes: Seq<u8>) -> Seq<char> {
    if bytes.len() <= 8 {
        Seq::new(bytes.len(), |i: int| '*')
    } else {
        decode_utf8(bytes.subrange(0, 4)) + "..."@ + decode_utf8(
            bytes.subrange(bytes.len() - 4, bytes.len() as int),
        )
    }
}

/// Whether a secret can be masked: a long one must not have a character
/// straddling its fourth byte from either end.
pub open spec fn maskable(bytes: Seq<u8>) -> bool {
    bytes.len() > 8 ==> is_char_boundary(bytes, 4) && is_char_boundary(bytes, bytes.len() - 4)
}

/// Whether [`mask_token`] may be called on `token`.
pub fn can_mask(token: &str) -> (res: bool)
    ensures
        res == maskable(token.spec_bytes()),
{
    let n = token.as_bytes().len();
    n <= 8 || (token.is_char_boundary(4) && token.is_char_boundary(n - 4))
}

/// Masks a secret for display.
pub fn mask_token(token: &str) -> (res: String)
    requires
        maskable(token.spec_bytes()),
    ensures
        res@ == masked(token.spec_bytes()),
{
    let n = token.as_bytes().len();
    if n <= 8 {
        let mut out = String::new();
        let mut i: usize = 0;
        proof {
            reveal_strlit("*");
        }
        while i < n
            invariant
                i <= n,
                out@ == Seq::new(i as nat, |k: int| '*'),
                "*"@ == seq!['*'],
            decreases n - i,
        {
            out.append("*");
            i += 1;
            assert(out@ =~= Seq::new(i as nat, |k: int| '*'));
        }
        return out;
    }
    let (head, _) = token.split_at(4);
    let (_, tail) = token.split_at(n - 4);
    proof {
        encode_utf8_decode_utf8(head@);
        encode_utf8_decode_utf8(tail@);
    }
    let mut out = String::from_str(head);
    out.append("...");
    out.append(tail);
    out
}

} // verus!
