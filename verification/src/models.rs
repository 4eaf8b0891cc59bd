//! The account list and the key under which an account's secret is stored.

use vstd::prelude::*;
use crate::text::{opt_clone, opt_eq, opt_view};

verus! {

/// One configured identity.  The secret token is not part of it: it lives in
/// the secret store under [`make_key`].
#[derive(Debug, PartialEq, Eq)]
pub struct Account {
    pub username: String,
    pub email: String,
    pub alias: Option<String>,
    /// `None` stands for the default host, which is never stored.
    pub host: Option<String>,
}

/// What an [`Account`] denotes.
pub ghost struct AccountView {
    pub username: Seq<char>,
    pub email: Seq<char>,
    pub alias: Option<Seq<char>>,
    pub host: Option<Seq<char>>,
}

impl View for Account {
    type V = AccountView;

    open spec fn view(&self) -> AccountView {
        AccountView {
            username: self.username@,
            email: self.email@,
            alias: opt_view(self.alias),
            host: opt_view(self.host),
        }
    }
}

impl Clone for Account {
    fn clone(&self) -> (r: Self)
        ensures
            r@ == self@,
    {
        Account {
            username: self.username.clone(),
            email: self.email.clone(),
            alias: opt_clone(&self.alias),
            host: opt_clone(&self.host),
        }
    }
}

impl AccountView {
    /// Whether this account is the one that `(username, alias)` identifies.
    pub open spec fn has_key(self, username: Seq<char>, alias: Option<Seq<char>>) -> bool {
        self.username == username && self.alias == alias
    }

    /// Whether this account carries the given name and email.
    pub open spec fn has_identity(self, name: Seq<char>, email: Seq<char>) -> bool {
        self.username == name && self.email == email
    }
}

/// The ordered account list.  The order is the display order, and the cursor
/// of the list view counts along it.
#[derive(Debug, PartialEq, Eq)]
pub struct Config {
    pub accounts: Vec<Account>,
}

impl View for Config {
    type V = Seq<AccountView>;

    open spec fn view(&self) -> Seq<AccountView> {
        Seq::new(self.accounts@.len(), |i: int| self.accounts@[i]@)
    }
}

impl Default for Config {
    fn default() -> (r: Self)
        ensures
            r@ == Seq::<AccountView>::empty(),
    {
        let r = Config { accounts: Vec::new() };
        assert(r@ =~= Seq::<AccountView>::empty());
        r
    }
}

/// The separator between username and alias in a secret-store key.
pub open spec fn key_separator() -> Seq<char> {
    seq![':', ':']
}

/// The secret-store key of `(username, alias)`.
pub open spec fn key_of(username: Seq<char>, alias: Option<Seq<char>>) -> Seq<char> {
    match alias {
        Some(a) => username + key_separator() + a,
        None => username,
    }
}

/// The lowest index at which `accounts` holds the key `(username, alias)`,
/// or the length of `accounts` if no entry has it.
pub open spec fn first_with_key(
    accounts: Seq<AccountView>,
    username: Seq<char>,
    alias: Option<Seq<char>>,
) -> int
    decreases accounts.len(),
{
    if accounts.len() == 0 {
        0
    } else if accounts[0].has_key(username, alias) {
        0
    } else {
        1 + first_with_key(accounts.drop_first(), username, alias)
    }
}

/// The first position at which `accounts` holds the key, if any does.
pub open spec fn existing_index(
    accounts: Seq<AccountView>,
    username: Seq<char>,
    alias: Option<Seq<char>>,
) -> Option<int> {
    let first = first_with_key(accounts, username, alias);
    if first < accounts.len() {
        Some(first)
    } else {
        None
    }
}

/// [`first_with_key`] is the position of the first entry with the key: no
/// entry before it has the key, and it is within the list exactly where
/// some entry has the key.
pub proof fn lemma_first_with_key(
    accounts: Seq<AccountView>,
    username: Seq<char>,
    alias: Option<Seq<char>>,
)
    ensures
        0 <= first_with_key(accounts, username, alias) <= accounts.len(),
        first_with_key(accounts, username, alias) < accounts.len() ==> accounts[first_with_key(
            accounts,
            username,
            alias,
        )].has_key(username, alias),
        forall|j: int|
            0 <= j < first_with_key(accounts, username, alias) ==> !(#[trigger] accounts[j])
                .has_key(username, alias),
    decreases accounts.len(),
{
    if accounts.len() > 0 && !accounts[0].has_key(username, alias) {
        let rest = accounts.drop_first();
        lemma_first_with_key(rest, username, alias);
        let first = first_with_key(rest, username, alias);
        assert forall|j: int| 0 <= j < first + 1 implies !(#[trigger] accounts[j]).has_key(
            username,
            alias,
        ) by {
            if j > 0 {
                assert(accounts[j] == rest[j - 1]);
            }
        }
        if first < rest.len() {
            assert(accounts[first + 1] == rest[first]);
        }
    }
}

/// How many entries of `accounts` hold the key `(username, alias)`.
pub open spec fn count_with_key(
    accounts: Seq<AccountView>,
    username: Seq<char>,
    alias: Option<Seq<char>>,
) -> nat
    decreases accounts.len(),
{
    if accounts.len() == 0 {
        0
    } else {
        count_with_key(accounts.drop_last(), username, alias) + if accounts.last().has_key(
            username,
            alias,
        ) {
            1nat
        } else {
            0nat
        }
    }
}

/// The list after an account has been written at `index`, or appended when
/// there is no index.
pub open spec fn upserted(
    accounts: Seq<AccountView>,
    account: AccountView,
    index: Option<int>,
) -> Seq<AccountView> {
    match index {
        Some(i) => accounts.update(i, account),
        None => accounts.push(account),
    }
}

/// The secret-store key of `(username, alias)`: the username alone, or
/// username, two colons and the alias.
pub fn make_key(username: &str, alias: Option<&str>) -> (key: String)
    ensures
        key@ == key_of(
            username@,
            match alias {
                Some(a) => Some(a@),
                None => None,
            },
        ),
{
    match alias {
        Some(a) => {
            proof {
                reveal_strlit("::");
                assert("::"@ =~= key_separator());
            }
            let mut key = String::from_str(username);
            key.append("::");
            key.append(a);
            key
        },
        None => String::from_str(username),
    }
}

impl Account {
    /// The secret-store key of this account.
    pub fn key(&self) -> (key: String)
        ensures
            key@ == key_of(self@.username, self@.alias),
    {
        match &self.alias {
            Some(a) => make_key(self.username.as_str(), Some(a.as_str())),
            None => make_key(self.username.as_str(), None),
        }
    }

    /// Whether this account is the one that `(username, alias)` identifies.
    pub fn has_key(&self, username: &String, alias: &Option<String>) -> (r: bool)
        ensures
            r == self@.has_key(username@, opt_view(*alias)),
    {
        self.username == *username && opt_eq(&self.alias, alias)
    }
}

impl Config {
    /// The first position that holds the key `(username, alias)`, or none
    /// where no entry holds it.
    pub fn position(&self, username: &String, alias: &Option<String>) -> (r: Option<usize>)
        ensures
            match r {
                Some(i) => existing_index(self@, username@, opt_view(*alias)) == Some(i as int),
                None => existing_index(self@, username@, opt_view(*alias)) is None,
            },
            r is Some ==> r->0 < self@.len() && self@[r->0 as int].has_key(
                username@,
                opt_view(*alias),
            ),
            r is None ==> forall|j: int|
                0 <= j < self@.len() ==> !(#[trigger] self@[j]).has_key(
                    username@,
                    opt_view(*alias),
                ),
    {
        let mut i: usize = 0;
        while i < self.accounts.len()
            invariant
                i <= self.accounts.len(),
                forall|j: int|
                    0 <= j < i ==> !(#[trigger] self@[j]).has_key(username@, opt_view(*alias)),
            decreases self.accounts.len() - i,
        {
            if self.accounts[i].has_key(username, alias) {
                proof {
                    lemma_first_with_key(self@, username@, opt_view(*alias));
                    let first = first_with_key(self@, username@, opt_view(*alias));
                    assert(self@[i as int].has_key(username@, opt_view(*alias)));
                    if first < i {
                        assert(self@[first].has_key(username@, opt_view(*alias)));
                    }
                }
                return Some(i);
            }
            i += 1;
        }
        proof {
            lemma_first_with_key(self@, username@, opt_view(*alias));
            let first = first_with_key(self@, username@, opt_view(*alias));
            if first < self@.len() {
                assert(self@[first].has_key(username@, opt_view(*alias)));
            }
        }
        None
    }

    /// Writes `account` at `index`, or appends it when there is no index.
    pub fn upsert(&mut self, account: Account, index: Option<usize>)
        requires
            index is Some ==> index->0 < old(self)@.len(),
        ensures
            final(self)@ == upserted(
                old(self)@,
                account@,
                match index {
                    Some(i) => Some(i as int),
                    None => None,
                },
            ),
    {
        match index {
            Some(i) => {
                self.accounts.set(i, account);
            },
            None => {
                self.accounts.push(account);
            },
        }
        assert(self@ =~= upserted(
            old(self)@,
            account@,
            match index {
                Some(i) => Some(i as int),
                None => None,
            },
        ));
    }

    /// Takes the account at `index` out of the list; the later ones move up.
    pub fn remove(&mut self, index: usize) -> (gone: Account)
        requires
            index < old(self)@.len(),
        ensures
            gone@ == old(self)@[index as int],
            final(self)@ == old(self)@.remove(index as int),
    {
        let gone = self.accounts.remove(index);
        assert(self@ =~= old(self)@.remove(index as int));
        gone
    }
}

} // verus!
