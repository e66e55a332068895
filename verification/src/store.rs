//! Accounts kept by address: the groundwork of the ledger.
//!
//! A list of accounts in which no address occurs twice stands for a map from
//! addresses to accounts. The lamports of all of them are summed, so that
//! the ledger can show that none are made or lost.

use vstd::prelude::*;

use crate::pubkey::Pubkey;

verus! {

/// An account: its address, the lamports it holds, and what it stores.
pub struct Account<T> {
    pub key: Pubkey,
    pub lamports: u64,
    pub data: T,
}

/// No address occurs twice.
pub open spec fn distinct<T>(s: Seq<Account<T>>) -> bool {
    forall|i: int, j: int| 0 <= i < j < s.len() ==> s[i].key != s[j].key
}

/// There is an account at `key`.
pub open spec fn holds<T>(s: Seq<Account<T>>, key: Pubkey) -> bool {
    exists|i: int| 0 <= i < s.len() && (#[trigger] s[i]).key == key
}

/// The place of the account at `key`, where there is one.
pub open spec fn index_of<T>(s: Seq<Account<T>>, key: Pubkey) -> int {
    choose|i: int| 0 <= i < s.len() && (#[trigger] s[i]).key == key
}

/// The lamports held at `key`: none where there is no account.
pub open spec fn lamports_at<T>(s: Seq<Account<T>>, key: Pubkey) -> nat {
    if holds(s, key) {
        s[index_of(s, key)].lamports as nat
    } else {
        0
    }
}

/// The lamports of all accounts together.
pub open spec fn total<T>(s: Seq<Account<T>>) -> nat
    decreases s.len(),
{
    if s.len() == 0 {
        0
    } else {
        total(s.drop_last()) + s.last().lamports as nat
    }
}

/// In a list without repeated addresses, the account found at an address
/// is the one that stands there.
pub proof fn lemma_index_of<T>(s: Seq<Account<T>>, i: int)
    requires
        distinct(s),
        0 <= i < s.len(),
    ensures
        holds(s, s[i].key),
        index_of(s, s[i].key) == i,
        lamports_at(s, s[i].key) == s[i].lamports,
{
    let key = s[i].key;
    assert(0 <= i < s.len() && s[i].key == key);
    let j = index_of(s, key);
    assert(0 <= j < s.len() && s[j].key == key);
    if j != i {
        if j < i {
            assert(s[j].key != s[i].key);
        } else {
            assert(s[i].key != s[j].key);
        }
    }
}

/// A new account at the end adds its lamports to the total.
pub proof fn lemma_total_push<T>(s: Seq<Account<T>>, a: Account<T>)
    ensures
        total(s.push(a)) == total(s) + a.lamports,
{
    assert(s.push(a).drop_last() =~= s);
}

/// Replacing an account changes the total by the difference in lamports.
pub proof fn lemma_total_update<T>(s: Seq<Account<T>>, i: int, a: Account<T>)
    requires
        0 <= i < s.len(),
    ensures
        total(s.update(i, a)) + s[i].lamports == total(s) + a.lamports,
    decreases s.len(),
{
    let t = s.update(i, a);
    if i == s.len() - 1 {
        assert(t.drop_last() =~= s.drop_last());
    } else {
        lemma_total_update(s.drop_last(), i, a);
        assert(t.drop_last() =~= s.drop_last().update(i, a));
    }
}

/// Taking an account out takes its lamports out of the total.
pub proof fn lemma_total_remove<T>(s: Seq<Account<T>>, i: int)
    requires
        0 <= i < s.len(),
    ensures
        total(s.remove(i)) + s[i].lamports == total(s),
    decreases s.len(),
{
    let t = s.remove(i);
    if i == s.len() - 1 {
        assert(t =~= s.drop_last());
    } else {
        lemma_total_remove(s.drop_last(), i);
        assert(t.drop_last() =~= s.drop_last().remove(i));
        assert(t.last() == s.last());
    }
}

/// No account holds more than all of them together.
pub proof fn lemma_total_bounds<T>(s: Seq<Account<T>>, i: int)
    requires
        0 <= i < s.len(),
    ensures
        s[i].lamports <= total(s),
{
    lemma_total_remove(s, i);
}

/// Finds the account at `key`.
pub fn position<T>(accounts: &Vec<Account<T>>, key: &Pubkey) -> (found: Option<usize>)
    ensures
        match found {
            Some(i) => i < accounts.len() && accounts[i as int].key == *key,
            None => !holds(accounts@, *key),
        },
{
    let mut i: usize = 0;
    while i < accounts.len()
        invariant
            i <= accounts.len(),
            forall|j: int| 0 <= j < i ==> accounts[j].key != *key,
        decreases accounts.len() - i,
    {
        if accounts[i].key == *key {
            return Some(i);
        }
        i += 1;
    }
    None
}

/// The lamports held at `key`.
pub fn lamports_of<T>(accounts: &Vec<Account<T>>, key: &Pubkey) -> (lamports: u64)
    requires
        distinct(accounts@),
    ensures
        lamports == lamports_at(accounts@, *key),
{
    match position(accounts, key) {
        Some(i) => {
            proof {
                lemma_index_of(accounts@, i as int);
            }
            accounts[i].lamports
        },
        None => 0,
    }
}

/// Adds `amount` to what `key` holds, opening an account where there is none.
pub fn credit(accounts: &mut Vec<Account<()>>, key: Pubkey, amount: u64)
    requires
        distinct(old(accounts)@),
        total(old(accounts)@) + amount <= u64::MAX,
    ensures
        distinct(final(accounts)@),
        total(final(accounts)@) == total(old(accounts)@) + amount,
        forall|k: Pubkey|
            lamports_at(final(accounts)@, k) == if k == key {
                lamports_at(old(accounts)@, k) + amount
            } else {
                lamports_at(old(accounts)@, k) as int
            },
{
    let ghost before = accounts@;
    match position(accounts, &key) {
        Some(i) => {
            proof {
                lemma_total_bounds(before, i as int);
                lemma_index_of(before, i as int);
            }
            let held = accounts[i].lamports;
            let account = Account { key, lamports: held + amount, data: () };
            accounts.set(i, account);
            proof {
                lemma_total_update(before, i as int, account);
                lemma_replaced(before, i as int, account);
            }
        },
        None => {
            let account = Account { key, lamports: amount, data: () };
            accounts.push(account);
            proof {
                lemma_total_push(before, account);
                lemma_pushed(before, account);
            }
        },
    }
}

/// Takes `amount` from what `key` holds.
pub fn debit(accounts: &mut Vec<Account<()>>, key: Pubkey, amount: u64)
    requires
        distinct(old(accounts)@),
        amount <= lamports_at(old(accounts)@, key),
    ensures
        distinct(final(accounts)@),
        total(final(accounts)@) + amount == total(old(accounts)@),
        forall|k: Pubkey|
            lamports_at(final(accounts)@, k) == if k == key {
                lamports_at(old(accounts)@, k) - amount
            } else {
                lamports_at(old(accounts)@, k) as int
            },
{
    let ghost before = accounts@;
    match position(accounts, &key) {
        Some(i) => {
            proof {
                lemma_index_of(before, i as int);
            }
            let held = accounts[i].lamports;
            let account = Account { key, lamports: held - amount, data: () };
            accounts.set(i, account);
            proof {
                lemma_total_update(before, i as int, account);
                lemma_replaced(before, i as int, account);
            }
        },
        None => {},
    }
}

/// Replacing an account by one at the same address changes what is held
/// there and nothing else.
pub proof fn lemma_replaced<T>(s: Seq<Account<T>>, i: int, a: Account<T>)
    requires
        distinct(s),
        0 <= i < s.len(),
        a.key == s[i].key,
    ensures
        distinct(s.update(i, a)),
        forall|k: Pubkey| holds(s.update(i, a), k) == holds(s, k),
        forall|k: Pubkey| holds(s, k) ==> index_of(s.update(i, a), k) == index_of(s, k),
        forall|k: Pubkey|
            lamports_at(s.update(i, a), k) == if k == a.key {
                a.lamports as nat
            } else {
                lamports_at(s, k)
            },
{
    let t = s.update(i, a);
    assert forall|k: Pubkey| holds(t, k) == holds(s, k) by {
        if holds(s, k) {
            let j = index_of(s, k);
            assert(t[j].key == k);
        }
        if holds(t, k) {
            let j = index_of(t, k);
            assert(s[j].key == k);
        }
    }
    assert forall|k: Pubkey| holds(s, k) implies index_of(t, k) == index_of(s, k) by {
        let j = index_of(s, k);
        assert(t[j].key == k);
        lemma_index_of(t, j);
    }
    assert forall|k: Pubkey|
        lamports_at(t, k) == if k == a.key {
            a.lamports as nat
        } else {
            lamports_at(s, k)
        } by {
        if k == a.key {
            lemma_index_of(t, i);
        } else if holds(s, k) {
            let j = index_of(s, k);
            assert(t[j] == s[j]);
        }
    }
}

/// A new account at an address that held none adds that address and leaves
/// the others as they were.
pub proof fn lemma_pushed<T>(s: Seq<Account<T>>, a: Account<T>)
    requires
        distinct(s),
        !holds(s, a.key),
    ensures
        distinct(s.push(a)),
        forall|k: Pubkey| holds(s.push(a), k) == (k == a.key || holds(s, k)),
        index_of(s.push(a), a.key) == s.len(),
        forall|k: Pubkey| holds(s, k) ==> index_of(s.push(a), k) == index_of(s, k),
        forall|k: Pubkey|
            lamports_at(s.push(a), k) == if k == a.key {
                a.lamports as nat
            } else {
                lamports_at(s, k)
            },
{
    let t = s.push(a);
    assert forall|i: int, j: int| 0 <= i < j < t.len() implies t[i].key != t[j].key by {
        if j == s.len() {
            assert(s[i].key != a.key);
        }
    }
    assert(t[s.len() as int].key == a.key);
    lemma_index_of(t, s.len() as int);
    assert forall|k: Pubkey| holds(t, k) == (k == a.key || holds(s, k)) by {
        if holds(s, k) {
            let j = index_of(s, k);
            assert(t[j].key == k);
        }
        if holds(t, k) && k != a.key {
            let j = index_of(t, k);
            assert(s[j].key == k);
        }
    }
    assert forall|k: Pubkey| holds(s, k) implies index_of(t, k) == index_of(s, k) by {
        let j = index_of(s, k);
        assert(t[j].key == k);
        lemma_index_of(t, j);
    }
    assert forall|k: Pubkey|
        lamports_at(t, k) == if k == a.key {
            a.lamports as nat
        } else {
            lamports_at(s, k)
        } by {
        if k != a.key && holds(s, k) {
            let j = index_of(s, k);
            assert(t[j] == s[j]);
        }
    }
}

/// Taking an account out frees its address and leaves the others as they were.
pub proof fn lemma_removed<T>(s: Seq<Account<T>>, i: int)
    requires
        distinct(s),
        0 <= i < s.len(),
    ensures
        distinct(s.remove(i)),
        forall|k: Pubkey| holds(s.remove(i), k) == (k != s[i].key && holds(s, k)),
        forall|k: Pubkey|
            k != s[i].key && holds(s, k) ==> s.remove(i)[index_of(s.remove(i), k)] == s[index_of(
                s,
                k,
            )],
{
    let t = s.remove(i);
    assert forall|a: int, b: int| 0 <= a < b < t.len() implies t[a].key != t[b].key by {
        let a2 = if a < i { a } else { a + 1 };
        let b2 = if b < i { b } else { b + 1 };
        assert(t[a] == s[a2]);
        assert(t[b] == s[b2]);
    }
    assert forall|k: Pubkey| holds(t, k) == (k != s[i].key && holds(s, k)) by {
        if holds(t, k) {
            let j = index_of(t, k);
            let j2 = if j < i { j } else { j + 1 };
            assert(t[j] == s[j2]);
            assert(s[j2].key == k);
            if k == s[i].key {
                lemma_index_of(s, i);
                lemma_index_of(s, j2);
            }
        }
        if k != s[i].key && holds(s, k) {
            let j = index_of(s, k);
            let j2 = if j < i { j } else { j - 1 };
            assert(t[j2] == s[j]);
        }
    }
    assert forall|k: Pubkey| k != s[i].key && holds(s, k) implies t[index_of(t, k)] == s[index_of(
        s,
        k,
    )] by {
        let j = index_of(s, k);
        let j2 = if j < i { j } else { j - 1 };
        assert(t[j2] == s[j]);
        lemma_index_of(t, j2);
    }
}

} // verus!
