//! Git's own idea of who the author is, and the identities it has that the
//! account list does not hold.

use vstd::prelude::*;
use crate::effects::{Answer, AnswerView, Request, RequestView};
use crate::models::{Account, AccountView, Config};
use crate::text::{opt_eq, opt_view};
use crate::utils::{ALIAS_KEY, ReadScope, Scope};

verus! {

/// What git has configured as the author, globally and in the repository:
/// name, email, and the alias that this tool keeps beside them.  It is
/// fetched anew whenever the list may have changed it, and never kept longer.
#[derive(Debug, PartialEq, Eq)]
pub struct GitIdentity {
    pub global_name: Option<String>,
    pub global_email: Option<String>,
    pub global_alias: Option<String>,
    pub local_name: Option<String>,
    pub local_email: Option<String>,
    pub local_alias: Option<String>,
}

/// What a [`GitIdentity`] denotes.
pub ghost struct GitIdentityView {
    pub global_name: Option<Seq<char>>,
    pub global_email: Option<Seq<char>>,
    pub global_alias: Option<Seq<char>>,
    pub local_name: Option<Seq<char>>,
    pub local_email: Option<Seq<char>>,
    pub local_alias: Option<Seq<char>>,
}

impl View for GitIdentity {
    type V = GitIdentityView;

    open spec fn view(&self) -> GitIdentityView {
        GitIdentityView {
            global_name: opt_view(self.global_name),
            global_email: opt_view(self.global_email),
            global_alias: opt_view(self.global_alias),
            local_name: opt_view(self.local_name),
            local_email: opt_view(self.local_email),
            local_alias: opt_view(self.local_alias),
        }
    }
}

impl GitIdentityView {
    /// Whether the repository has a name or an email of its own.
    pub open spec fn has_local(self) -> bool {
        self.local_name is Some || self.local_email is Some
    }

    /// Whether `account` is the global identity: name, email and alias agree.
    pub open spec fn is_global(self, account: AccountView) -> bool {
        &&& self.global_name == Some(account.username)
        &&& self.global_email == Some(account.email)
        &&& self.global_alias == account.alias
    }

    /// Whether `account` is the repository's identity.
    pub open spec fn is_local(self, account: AccountView) -> bool {
        &&& self.has_local()
        &&& self.local_name == Some(account.username)
        &&& self.local_email == Some(account.email)
        &&& self.local_alias == account.alias
    }
}

/// The key under which the alias is kept in git's configuration.
pub open spec fn alias_key() -> Seq<char> {
    ALIAS_KEY@
}

/// The requests whose answers make up a [`GitIdentity`]: name, email and
/// alias, first of the global scope, then of the repository.
pub open spec fn identity_queries() -> Seq<RequestView> {
    seq![
        RequestView::GitConfig { key: "user.name"@, scope: ReadScope::Global },
        RequestView::GitConfig { key: "user.email"@, scope: ReadScope::Global },
        RequestView::GitConfig { key: alias_key(), scope: ReadScope::Global },
        RequestView::GitConfig { key: "user.name"@, scope: ReadScope::Local },
        RequestView::GitConfig { key: "user.email"@, scope: ReadScope::Local },
        RequestView::GitConfig { key: alias_key(), scope: ReadScope::Local },
    ]
}

/// What a list of requests denotes.
pub open spec fn requests_view(requests: Seq<Request>) -> Seq<RequestView> {
    Seq::new(requests.len(), |i: int| requests[i]@)
}

/// What a list of answers denotes.
pub open spec fn answers_view(answers: Seq<Answer>) -> Seq<AnswerView> {
    Seq::new(answers.len(), |i: int| answers[i]@)
}

/// The value that the `i`-th answer gives; none where there is no such
/// answer or it gives none.
pub open spec fn value_at(answers: Seq<AnswerView>, i: int) -> Option<Seq<char>> {
    if 0 <= i < answers.len() {
        answers[i].text()
    } else {
        None
    }
}

/// The identity that the answers to [`identity_queries`] describe, taken
/// in the order of the queries.
pub open spec fn identity_of(answers: Seq<AnswerView>) -> GitIdentityView {
    GitIdentityView {
        global_name: value_at(answers, 0),
        global_email: value_at(answers, 1),
        global_alias: value_at(answers, 2),
        local_name: value_at(answers, 3),
        local_email: value_at(answers, 4),
        local_alias: value_at(answers, 5),
    }
}

/// The value that the `i`-th answer gives.
fn value_of(answers: &Vec<Answer>, i: usize) -> (r: Option<String>)
    ensures
        opt_view(r) == value_at(answers_view(answers@), i as int),
{
    if i < answers.len() {
        match &answers[i] {
            Answer::Text(Some(text)) => Some(text.clone()),
            _ => None,
        }
    } else {
        None
    }
}

impl GitIdentity {
    /// The `i`-th of the six values to ask git for; the last one for any
    /// `i` beyond.
    pub fn query(i: usize) -> (r: Request)
        ensures
            r@ == identity_queries()[if i < 5 {
                i as int
            } else {
                5
            }],
    {
        let scope = if i < 3 {
            ReadScope::Global
        } else {
            ReadScope::Local
        };
        let key = if i == 0 || i == 3 {
            "user.name"
        } else if i == 1 || i == 4 {
            "user.email"
        } else {
            ALIAS_KEY
        };
        Request::GitConfig { key: String::from_str(key), scope }
    }

    /// The six values to ask git for.
    pub fn queries() -> (r: Vec<Request>)
        ensures
            requests_view(r@) == identity_queries(),
    {
        let mut r: Vec<Request> = Vec::new();
        let mut i: usize = 0;
        while i < 6
            invariant
                i <= 6,
                r@.len() == i,
                forall|j: int| 0 <= j < i ==> (#[trigger] r@[j])@ == identity_queries()[j],
            decreases 6 - i,
        {
            r.push(GitIdentity::query(i));
            i += 1;
        }
        assert(requests_view(r@) =~= identity_queries());
        r
    }

    /// The identity that git's answers describe.  The answers are those to
    /// [`GitIdentity::queries`], in the same order; what is not answered
    /// counts as not configured.
    pub fn fetch(answers: &Vec<Answer>) -> (r: GitIdentity)
        ensures
            r@ == identity_of(answers_view(answers@)),
    {
        GitIdentity {
            global_name: value_of(answers, 0),
            global_email: value_of(answers, 1),
            global_alias: value_of(answers, 2),
            local_name: value_of(answers, 3),
            local_email: value_of(answers, 4),
            local_alias: value_of(answers, 5),
        }
    }

    /// An identity with nothing configured.
    pub fn unset() -> (r: GitIdentity)
        ensures
            r@ == (GitIdentityView {
                global_name: None,
                global_email: None,
                global_alias: None,
                local_name: None,
                local_email: None,
                local_alias: None,
            }),
    {
        GitIdentity {
            global_name: None,
            global_email: None,
            global_alias: None,
            local_name: None,
            local_email: None,
            local_alias: None,
        }
    }

    /// Whether the repository has a name or an email of its own.
    pub fn has_local(&self) -> (r: bool)
        ensures
            r == self@.has_local(),
    {
        self.local_name.is_some() || self.local_email.is_some()
    }

    /// Whether `account` is the global identity.
    pub fn is_global(&self, account: &Account) -> (r: bool)
        ensures
            r == self@.is_global(account@),
    {
        opt_is(&self.global_name, &account.username) && opt_is(
            &self.global_email,
            &account.email,
        ) && opt_eq(&self.global_alias, &account.alias)
    }

    /// Whether `account` is the repository's identity.
    pub fn is_local(&self, account: &Account) -> (r: bool)
        ensures
            r == self@.is_local(account@),
    {
        self.has_local() && opt_is(&self.local_name, &account.username) && opt_is(
            &self.local_email,
            &account.email,
        ) && opt_eq(&self.local_alias, &account.alias)
    }
}

/// Whether the optional string is there and holds `text`.
fn opt_is(a: &Option<String>, text: &String) -> (r: bool)
    ensures
        r == (opt_view(*a) == Some(text@)),
{
    match a {
        Some(x) => *x == *text,
        None => false,
    }
}

/// An identity that git has configured and the account list does not hold.
#[derive(Debug, PartialEq, Eq)]
pub struct Unmanaged {
    pub name: String,
    pub email: String,
    /// Where git has it.
    pub scope: Scope,
}

/// What an [`Unmanaged`] denotes.
pub ghost struct UnmanagedView {
    pub name: Seq<char>,
    pub email: Seq<char>,
    pub scope: Scope,
}

impl View for Unmanaged {
    type V = UnmanagedView;

    open spec fn view(&self) -> UnmanagedView {
        UnmanagedView { name: self.name@, email: self.email@, scope: self.scope }
    }
}

/// What a list of unmanaged identities denotes.
pub open spec fn unmanaged_view(list: Seq<Unmanaged>) -> Seq<UnmanagedView> {
    Seq::new(list.len(), |i: int| list[i]@)
}

/// Whether some account carries the given name and email.
pub open spec fn is_known(accounts: Seq<AccountView>, name: Seq<char>, email: Seq<char>) -> bool {
    exists|i: int| 0 <= i < accounts.len() && (#[trigger] accounts[i]).has_identity(name, email)
}

/// The global identity, where git has one that no account carries.
pub open spec fn unmanaged_global(accounts: Seq<AccountView>, git: GitIdentityView) -> Seq<
    UnmanagedView,
> {
    if git.global_name is Some && git.global_email is Some && !is_known(
        accounts,
        git.global_name->0,
        git.global_email->0,
    ) {
        seq![
            UnmanagedView {
                name: git.global_name->0,
                email: git.global_email->0,
                scope: Scope::Global,
            },
        ]
    } else {
        Seq::empty()
    }
}

/// Whether the repository's identity is listed beside the global one: git
/// has one, no account carries it, and it is not the global identity that
/// is listed already.
pub open spec fn lists_local(accounts: Seq<AccountView>, git: GitIdentityView) -> bool {
    &&& git.local_name is Some
    &&& git.local_email is Some
    &&& !is_known(accounts, git.local_name->0, git.local_email->0)
    &&& !(unmanaged_global(accounts, git).len() > 0 && git.global_name == git.local_name
        && git.global_email == git.local_email)
}

/// The identities that git has and the account list does not: the global
/// one first, then the repository's, which is left out where it repeats the
/// global one.
pub open spec fn unmanaged_of(accounts: Seq<AccountView>, git: GitIdentityView) -> Seq<
    UnmanagedView,
> {
    unmanaged_global(accounts, git) + if lists_local(accounts, git) {
        seq![
            UnmanagedView {
                name: git.local_name->0,
                email: git.local_email->0,
                scope: Scope::Local,
            },
        ]
    } else {
        Seq::empty()
    }
}

/// Whether some account of `config` carries the given name and email.
pub fn knows(config: &Config, name: &String, email: &String) -> (r: bool)
    ensures
        r == is_known(config@, name@, email@),
{
    let mut i: usize = 0;
    while i < config.accounts.len()
        invariant
            i <= config.accounts.len(),
            forall|j: int| 0 <= j < i ==> !(#[trigger] config@[j]).has_identity(name@, email@),
        decreases config.accounts.len() - i,
    {
        if config.accounts[i].username == *name && config.accounts[i].email == *email {
            assert(config@[i as int].has_identity(name@, email@));
            return true;
        }
        i += 1;
    }
    false
}

/// The identities that git has configured and `config` does not hold.
pub fn unmanaged_accounts(config: &Config, git: &GitIdentity) -> (r: Vec<Unmanaged>)
    ensures
        unmanaged_view(r@) == unmanaged_of(config@, git@),
        r@.len() <= 2,
{
    let mut found: Vec<Unmanaged> = Vec::new();
    match (&git.global_name, &git.global_email) {
        (Some(name), Some(email)) => {
            if !knows(config, name, email) {
                found.push(
                    Unmanaged { name: name.clone(), email: email.clone(), scope: Scope::Global },
                );
            }
        },
        _ => {},
    }
    assert(unmanaged_view(found@) =~= unmanaged_global(config@, git@));
    match (&git.local_name, &git.local_email) {
        (Some(name), Some(email)) => {
            let listed = found.len() > 0 && found[0].name == *name && found[0].email == *email;
            if !knows(config, name, email) && !listed {
                found.push(
                    Unmanaged { name: name.clone(), email: email.clone(), scope: Scope::Local },
                );
            }
        },
        _ => {},
    }
    assert(unmanaged_view(found@) =~= unmanaged_of(config@, git@));
    found
}

/// Where the global and the repository's identity are the same and no
/// account carries it, it is listed once, as the global one.
pub proof fn lemma_unmanaged_same_identity(
    accounts: Seq<AccountView>,
    git: GitIdentityView,
    name: Seq<char>,
    email: Seq<char>,
)
    requires
        git.global_name == Some(name),
        git.global_email == Some(email),
        git.local_name == Some(name),
        git.local_email == Some(email),
        !is_known(accounts, name, email),
    ensures
        unmanaged_of(accounts, git) == seq![UnmanagedView { name, email, scope: Scope::Global }],
{
    assert(unmanaged_of(accounts, git) =~= seq![
        UnmanagedView { name, email, scope: Scope::Global },
    ]);
}

/// Where an account carries the global identity and none carries the
/// repository's, only the repository's is listed.
pub proof fn lemma_unmanaged_local_only(
    accounts: Seq<AccountView>,
    git: GitIdentityView,
    name: Seq<char>,
    email: Seq<char>,
)
    requires
        git.global_name is Some,
        git.global_email is Some,
        is_known(accounts, git.global_name->0, git.global_email->0),
        git.local_name == Some(name),
        git.local_email == Some(email),
        !is_known(accounts, name, email),
    ensures
        unmanaged_of(accounts, git) == seq![UnmanagedView { name, email, scope: Scope::Local }],
{
    assert(unmanaged_of(accounts, git) =~= seq![
        UnmanagedView { name, email, scope: Scope::Local },
    ]);
}

/// No listed identity is carried by an account, and the list never holds
/// the same name and email twice.
pub proof fn lemma_unmanaged_are_unknown(accounts: Seq<AccountView>, git: GitIdentityView)
    ensures
        forall|i: int|
            0 <= i < unmanaged_of(accounts, git).len() ==> !is_known(
                accounts,
                (#[trigger] unmanaged_of(accounts, git)[i]).name,
                unmanaged_of(accounts, git)[i].email,
            ),
        unmanaged_of(accounts, git).len() == 2 ==> !(unmanaged_of(accounts, git)[0].name
            == unmanaged_of(accounts, git)[1].name && unmanaged_of(accounts, git)[0].email
            == unmanaged_of(accounts, git)[1].email),
{
}

} // verus!
