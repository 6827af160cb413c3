//! What holds of the registry under the operations that change it.

use vstd::prelude::*;
use crate::commands::account::enrolled;
use crate::models::{
    first_index, lemma_first_index, lemma_first_index_is, AccountKind, AccountView,
    AccountsFileView,
};

verus! {

/// An id is in the registry exactly if some position holds it.
pub proof fn lemma_contains(reg: AccountsFileView, id: Seq<char>)
    ensures
        reg.contains(id) <==> exists|i: int| 0 <= i < reg.all().len() && reg.all()[i].id == id,
{
    lemma_first_index(reg.all(), id);
    if reg.contains(id) {
        let i = first_index(reg.all(), id);
        assert(0 <= i < reg.all().len() && reg.all()[i].id == id);
    }
}

/// Where ids are distinct, looking up the id of the account at a position
/// gives that account.
pub proof fn lemma_find_at(reg: AccountsFileView, i: int)
    requires
        reg.ids_distinct(),
        0 <= i < reg.all().len(),
    ensures
        reg.find(reg.all()[i].id) == Some(reg.all()[i]),
{
    let id = reg.all()[i].id;
    lemma_first_index(reg.all(), id);
    let k = first_index(reg.all(), id);
    if k < i {
        assert(reg.all()[k].id != reg.all()[i].id);
    }
}

/// Enrolling an account whose id is new keeps the registry well formed.
pub proof fn lemma_enroll_keeps_wf(reg: AccountsFileView, account: AccountView)
    requires
        reg.wf(),
        !reg.contains(account.id),
    ensures
        enrolled(reg, account).wf(),
        enrolled(reg, account).contains(account.id),
{
    let new = enrolled(reg, account);
    let p = reg.personal.len() as int;
    let at = match account.kind {
        AccountKind::Personal => p,
        AccountKind::Work => reg.all().len() as int,
    };
    assert(new.all()[at] == account);
    lemma_contains(reg, account.id);
    assert forall|i: int, j: int| 0 <= i < j < new.all().len() implies new.all()[i].id
        != new.all()[j].id by {
        let ki = if i < at {
            i
        } else {
            i - 1
        };
        let kj = if j < at {
            j
        } else {
            j - 1
        };
        if i == at {
            assert(reg.all()[kj] == new.all()[j]);
        } else if j == at {
            assert(reg.all()[ki] == new.all()[i]);
        } else {
            assert(reg.all()[ki] == new.all()[i]);
            assert(reg.all()[kj] == new.all()[j]);
        }
    }
    lemma_contains(new, account.id);
    if new.active_account_id is Some {
        let active = new.active_account_id->0;
        if reg.active_account_id is Some {
            lemma_contains(reg, active);
            let k = choose|k: int| 0 <= k < reg.all().len() && reg.all()[k].id == active;
            let i = if k < at {
                k
            } else {
                k + 1
            };
            assert(new.all()[i] == reg.all()[k]);
            lemma_contains(new, active);
        }
    }
}

/// After an account with a new id is enrolled, its id finds it, it sits in
/// the partition of its kind, and every other id finds what it found before.
pub proof fn lemma_enroll_finds(reg: AccountsFileView, account: AccountView)
    requires
        reg.wf(),
        !reg.contains(account.id),
    ensures
        enrolled(reg, account).find(account.id) == Some(account),
        account.kind == AccountKind::Personal ==> enrolled(reg, account).personal
            == reg.personal.push(account) && enrolled(reg, account).work == reg.work,
        account.kind == AccountKind::Work ==> enrolled(reg, account).work == reg.work.push(
            account,
        ) && enrolled(reg, account).personal == reg.personal,
        forall|other: Seq<char>|
            other != account.id ==> enrolled(reg, account).find(other) == reg.find(other),
{
    let new = enrolled(reg, account);
    lemma_enroll_keeps_wf(reg, account);
    let p = reg.personal.len() as int;
    let at = match account.kind {
        AccountKind::Personal => p,
        AccountKind::Work => reg.all().len() as int,
    };
    assert(new.all()[at] == account);
    lemma_find_at(new, at);
    assert forall|other: Seq<char>| other != account.id implies new.find(other) == reg.find(
        other,
    ) by {
        lemma_first_index(reg.all(), other);
        lemma_first_index(new.all(), other);
        let k = first_index(reg.all(), other);
        let i = if k < at {
            k
        } else {
            k + 1
        };
        if k < reg.all().len() {
            assert(new.all()[i] == reg.all()[k]);
            assert forall|j: int| 0 <= j < i implies new.all()[j].id != other by {
                if j < at {
                    assert(new.all()[j] == reg.all()[j]);
                } else if j > at {
                    assert(new.all()[j] == reg.all()[j - 1]);
                }
            }
            lemma_first_index_is(new.all(), other, i);
        } else {
            assert forall|j: int| 0 <= j < new.all().len() implies new.all()[j].id != other by {
                if j < at {
                    assert(new.all()[j] == reg.all()[j]);
                } else if j > at {
                    assert(new.all()[j] == reg.all()[j - 1]);
                }
            }
            lemma_first_index_is(new.all(), other, new.all().len() as int);
        }
    }
}

/// The first account enrolled while none is active becomes active; one
/// enrolled while some account is active leaves the active id alone.
pub proof fn lemma_enroll_active(reg: AccountsFileView, account: AccountView)
    ensures
        reg.active_account_id is None ==> enrolled(reg, account).active_account_id == Some(
            account.id,
        ),
        reg.active_account_id is Some ==> enrolled(reg, account).active_account_id
            == reg.active_account_id,
{
}

/// Where every account sits in the partition of its kind, an account that
/// an id finds is in the partition that its kind names.
pub proof fn lemma_found_in_partition(reg: AccountsFileView, id: Seq<char>)
    requires
        reg.partitioned(),
        reg.find(id) is Some,
    ensures
        reg.find(id)->0.id == id,
        reg.find(id)->0.kind == AccountKind::Personal ==> reg.personal.contains(reg.find(id)->0),
        reg.find(id)->0.kind == AccountKind::Work ==> reg.work.contains(reg.find(id)->0),
{
    lemma_first_index(reg.all(), id);
    let i = first_index(reg.all(), id);
    let a = reg.all()[i];
    if i < reg.personal.len() {
        assert(reg.personal[i] == a);
    } else {
        assert(reg.work[i - reg.personal.len()] == a);
    }
}

/// The registry after a run of accounts was enrolled one after the other.
pub open spec fn enrolled_all(reg: AccountsFileView, accounts: Seq<AccountView>) -> AccountsFileView
    decreases accounts.len(),
{
    if accounts.len() == 0 {
        reg
    } else {
        enrolled(enrolled_all(reg, accounts.drop_last()), accounts.last())
    }
}

/// Accounts with distinct new ids, enrolled one after the other into a well
/// formed registry: each id then finds its account, every account sits in
/// the partition of its kind, and the registry is well formed.
pub proof fn lemma_enroll_all(reg: AccountsFileView, accounts: Seq<AccountView>)
    requires
        reg.wf(),
        forall|i: int| 0 <= i < accounts.len() ==> !reg.contains(#[trigger] accounts[i].id),
        forall|i: int, j: int| 0 <= i < j < accounts.len() ==> accounts[i].id != accounts[j].id,
    ensures
        enrolled_all(reg, accounts).wf(),
        forall|i: int|
            0 <= i < accounts.len() ==> enrolled_all(reg, accounts).find(
                #[trigger] accounts[i].id,
            ) == Some(accounts[i]),
        forall|i: int|
            0 <= i < accounts.len() && (#[trigger] accounts[i]).kind == AccountKind::Personal
                ==> enrolled_all(reg, accounts).personal.contains(accounts[i]),
        forall|i: int|
            0 <= i < accounts.len() && (#[trigger] accounts[i]).kind == AccountKind::Work
                ==> enrolled_all(reg, accounts).work.contains(accounts[i]),
        forall|id: Seq<char>|
            (forall|i: int| 0 <= i < accounts.len() ==> accounts[i].id != id) ==> enrolled_all(
                reg,
                accounts,
            ).find(id) == reg.find(id),
    decreases accounts.len(),
{
    if accounts.len() > 0 {
        let init = accounts.drop_last();
        let last = accounts.last();
        let mid = enrolled_all(reg, init);
        lemma_enroll_all(reg, init);
        assert forall|i: int| 0 <= i < init.len() implies init[i].id != last.id by {
            assert(init[i] == accounts[i]);
        }
        assert(mid.find(last.id) == reg.find(last.id));
        lemma_enroll_keeps_wf(mid, last);
        lemma_enroll_finds(mid, last);
        let new = enrolled_all(reg, accounts);
        assert forall|i: int| 0 <= i < accounts.len() implies new.find(#[trigger] accounts[i].id)
            == Some(accounts[i]) by {
            if i < init.len() {
                assert(init[i] == accounts[i]);
                assert(mid.find(init[i].id) == Some(init[i]));
            }
        }
        assert forall|i: int| 0 <= i < accounts.len() implies ((#[trigger] accounts[i]).kind
            == AccountKind::Personal ==> new.personal.contains(accounts[i])) && (accounts[i].kind
            == AccountKind::Work ==> new.work.contains(accounts[i])) by {
            assert(new.find(accounts[i].id) == Some(accounts[i]));
            lemma_found_in_partition(new, accounts[i].id);
        }
        assert forall|id: Seq<char>|
            (forall|i: int| 0 <= i < accounts.len() ==> accounts[i].id != id) implies new.find(id)
            == reg.find(id) by {
            assert(accounts[accounts.len() - 1].id != id);
            assert forall|i: int| 0 <= i < init.len() implies init[i].id != id by {
                assert(init[i] == accounts[i]);
            }
        }
    }
}

/// The active account is missing exactly if the active id is unset or
/// names no account of the registry.
pub proof fn lemma_active_none(reg: AccountsFileView)
    ensures
        reg.active() is None <==> (reg.active_account_id matches Some(id) ==> !reg.contains(id)),
        reg.active() matches Some(a) ==> reg.active_account_id == Some(a.id),
{
    if reg.active_account_id is Some {
        lemma_first_index(reg.all(), reg.active_account_id->0);
    }
}

/// Making an account of the registry active keeps the registry well formed
/// and makes that account the active one.
pub proof fn lemma_activate(reg: AccountsFileView, id: Seq<char>)
    requires
        reg.wf(),
        reg.contains(id),
    ensures
        reg.with_active(id).wf(),
        reg.with_active(id).active() == reg.find(id),
        reg.with_active(id).all() == reg.all(),
{
}

/// Taking an id out of a registry that does not hold it changes nothing.
pub proof fn lemma_remove_absent(reg: AccountsFileView, id: Seq<char>)
    requires
        !reg.contains(id),
    ensures
        reg.without(id) == reg,
{
    crate::models::lemma_first_index_concat(reg.personal, reg.work, id);
    lemma_first_index(reg.personal, id);
    lemma_first_index(reg.work, id);
}

/// Taking out the active account clears the active id; taking out another
/// one leaves the active id alone.
pub proof fn lemma_remove_active(reg: AccountsFileView, id: Seq<char>)
    requires
        reg.contains(id),
    ensures
        reg.active_account_id == Some(id) ==> reg.without(id).active_account_id is None,
        reg.active_account_id != Some(id) ==> reg.without(id).active_account_id
            == reg.active_account_id,
{
    crate::models::lemma_first_index_concat(reg.personal, reg.work, id);
    lemma_first_index(reg.personal, id);
    lemma_first_index(reg.work, id);
}

/// Taking an account out of a well formed registry leaves a well formed
/// registry that no longer holds the id, one account shorter, in which
/// every other id finds what it found before.
pub proof fn lemma_remove_keeps_wf(reg: AccountsFileView, id: Seq<char>)
    requires
        reg.wf(),
        reg.contains(id),
    ensures
        reg.without(id).wf(),
        !reg.without(id).contains(id),
        reg.without(id).all() == reg.all().remove(first_index(reg.all(), id)),
        reg.without(id).active() is None <==> (reg.active() is None || reg.active_account_id
            == Some(id)),
        forall|other: Seq<char>| other != id ==> reg.without(id).find(other) == reg.find(other),
{
    crate::models::lemma_first_index_concat(reg.personal, reg.work, id);
    lemma_first_index(reg.personal, id);
    lemma_first_index(reg.work, id);
    lemma_first_index(reg.all(), id);
    let at = first_index(reg.all(), id);
    let new = reg.without(id);
    assert(new.all() =~= reg.all().remove(at));
    assert forall|i: int, j: int| 0 <= i < j < new.all().len() implies new.all()[i].id
        != new.all()[j].id by {
        let ki = if i < at {
            i
        } else {
            i + 1
        };
        let kj = if j < at {
            j
        } else {
            j + 1
        };
        assert(new.all()[i] == reg.all()[ki]);
        assert(new.all()[j] == reg.all()[kj]);
    }
    assert forall|j: int| 0 <= j < new.all().len() implies new.all()[j].id != id by {
        let kj = if j < at {
            j
        } else {
            j + 1
        };
        assert(new.all()[j] == reg.all()[kj]);
    }
    lemma_first_index_is(new.all(), id, new.all().len() as int);
    assert forall|other: Seq<char>| other != id implies new.find(other) == reg.find(other) by {
        lemma_first_index(reg.all(), other);
        let k = first_index(reg.all(), other);
        let i = if k < at {
            k
        } else {
            k - 1
        };
        if k < reg.all().len() {
            assert(new.all()[i] == reg.all()[k]);
            assert forall|j: int| 0 <= j < i implies new.all()[j].id != other by {
                let kj = if j < at {
                    j
                } else {
                    j + 1
                };
                assert(new.all()[j] == reg.all()[kj]);
            }
            lemma_first_index_is(new.all(), other, i);
        } else {
            assert forall|j: int| 0 <= j < new.all().len() implies new.all()[j].id != other by {
                let kj = if j < at {
                    j
                } else {
                    j + 1
                };
                assert(new.all()[j] == reg.all()[kj]);
            }
            lemma_first_index_is(new.all(), other, new.all().len() as int);
        }
    }
    lemma_active_none(reg);
    lemma_active_none(new);
    if new.active_account_id is Some {
        let active = new.active_account_id->0;
        assert(active != id);
        assert(new.find(active) == reg.find(active));
    }
}

} // verus!
