//! What a login at GitHub comes to, once the answers are in: whether to go
//! on waiting for the user, and which of the user's email addresses to use.

use vstd::prelude::*;
use crate::text::{occurs_in, opt_view, str_contains};

verus! {

/// One of the email addresses that GitHub reports for a user.
#[derive(Debug, PartialEq, Eq)]
pub struct EmailEntry {
    pub email: String,
    /// Whether the user has marked it as the primary one.
    pub primary: bool,
}

/// What an [`EmailEntry`] denotes.
pub ghost struct EmailEntryView {
    pub email: Seq<char>,
    pub primary: bool,
}

impl View for EmailEntry {
    type V = EmailEntryView;

    open spec fn view(&self) -> EmailEntryView {
        EmailEntryView { email: self.email@, primary: self.primary }
    }
}

/// What a list of email entries denotes.
pub open spec fn emails_view(emails: Seq<EmailEntry>) -> Seq<EmailEntryView> {
    Seq::new(emails.len(), |i: int| emails[i]@)
}

/// Whether the address is one of GitHub's no-reply addresses, which keep
/// the user's own address out of commits.
pub open spec fn is_noreply(email: Seq<char>) -> bool {
    occurs_in("noreply.github.com"@, email)
}

/// The position of the first no-reply address, or the length of the list.
pub open spec fn first_noreply(emails: Seq<EmailEntryView>) -> int
    decreases emails.len(),
{
    if emails.len() == 0 {
        0
    } else if is_noreply(emails[0].email) {
        0
    } else {
        1 + first_noreply(emails.drop_first())
    }
}

/// The position of the first primary address, or the length of the list.
pub open spec fn first_primary(emails: Seq<EmailEntryView>) -> int
    decreases emails.len(),
{
    if emails.len() == 0 {
        0
    } else if emails[0].primary {
        0
    } else {
        1 + first_primary(emails.drop_first())
    }
}

/// The address to commit with: the first no-reply address; without one the
/// first primary address; without one the first address; and with no
/// address at all the one in the user's profile, or none.
pub open spec fn chosen_email(emails: Seq<EmailEntryView>, profile: Option<Seq<char>>) -> Seq<
    char,
> {
    if first_noreply(emails) < emails.len() {
        emails[first_noreply(emails)].email
    } else if first_primary(emails) < emails.len() {
        emails[first_primary(emails)].email
    } else if emails.len() > 0 {
        emails[0].email
    } else {
        match profile {
            Some(email) => email,
            None => Seq::empty(),
        }
    }
}

/// What follows an answer to the question whether the user has authorised
/// the login yet.
#[derive(Debug, PartialEq, Eq)]
pub enum PollStep {
    /// The user has: here is the token.
    Authorized(String),
    /// The login has failed for the reason given.
    Failed(String),
    /// Not yet: ask again after the interval.
    Wait,
}

/// What a [`PollStep`] denotes.
pub ghost enum PollStepView {
    Authorized(Seq<char>),
    Failed(Seq<char>),
    Wait,
}

impl View for PollStep {
    type V = PollStepView;

    open spec fn view(&self) -> PollStepView {
        match *self {
            PollStep::Authorized(t) => PollStepView::Authorized(t@),
            PollStep::Failed(e) => PollStepView::Failed(e@),
            PollStep::Wait => PollStepView::Wait,
        }
    }
}

/// What follows an answer: a token ends the wait; an error ends it too,
/// unless it only says that the user has not answered yet or that the
/// question came too soon.
pub open spec fn poll_step(token: Option<Seq<char>>, error: Option<Seq<char>>) -> PollStepView {
    match token {
        Some(t) => PollStepView::Authorized(t),
        None => match error {
            Some(e) => if e == "authorization_pending"@ || e == "slow_down"@ {
                PollStepView::Wait
            } else {
                PollStepView::Failed(e)
            },
            None => PollStepView::Wait,
        },
    }
}

proof fn lemma_first_noreply(emails: Seq<EmailEntryView>)
    ensures
        0 <= first_noreply(emails) <= emails.len(),
        first_noreply(emails) < emails.len() ==> is_noreply(emails[first_noreply(emails)].email),
        forall|j: int|
            0 <= j < first_noreply(emails) ==> !is_noreply((#[trigger] emails[j]).email),
    decreases emails.len(),
{
    if emails.len() > 0 && !is_noreply(emails[0].email) {
        let rest = emails.drop_first();
        lemma_first_noreply(rest);
        let first = first_noreply(rest);
        assert forall|j: int| 0 <= j < first + 1 implies !is_noreply(
            (#[trigger] emails[j]).email,
        ) by {
            if j > 0 {
                assert(emails[j] == rest[j - 1]);
            }
        }
        if first < rest.len() {
            assert(emails[first + 1] == rest[first]);
        }
    }
}

proof fn lemma_first_primary(emails: Seq<EmailEntryView>)
    ensures
        0 <= first_primary(emails) <= emails.len(),
        first_primary(emails) < emails.len() ==> emails[first_primary(emails)].primary,
        forall|j: int| 0 <= j < first_primary(emails) ==> !(#[trigger] emails[j]).primary,
    decreases emails.len(),
{
    if emails.len() > 0 && !emails[0].primary {
        let rest = emails.drop_first();
        lemma_first_primary(rest);
        let first = first_primary(rest);
        assert forall|j: int| 0 <= j < first + 1 implies !(#[trigger] emails[j]).primary by {
            if j > 0 {
                assert(emails[j] == rest[j - 1]);
            }
        }
        if first < rest.len() {
            assert(emails[first + 1] == rest[first]);
        }
    }
}

/// The address to commit with, out of those that GitHub reports and the
/// one in the user's profile.
pub fn pick_email(emails: &Vec<EmailEntry>, profile: Option<String>) -> (r: String)
    ensures
        r@ == chosen_email(emails_view(emails@), opt_view(profile)),
{
    let ghost all = emails_view(emails@);
    let mut i: usize = 0;
    while i < emails.len()
        invariant
            i <= emails.len(),
            all == emails_view(emails@),
            forall|j: int| 0 <= j < i ==> !is_noreply((#[trigger] all[j]).email),
        decreases emails.len() - i,
    {
        if str_contains(emails[i].email.as_str(), "noreply.github.com") {
            proof {
                lemma_first_noreply(all);
                let first = first_noreply(all);
                assert(is_noreply(all[i as int].email));
                if first < i {
                    assert(is_noreply(all[first].email));
                }
            }
            return emails[i].email.clone();
        }
        i += 1;
    }
    proof {
        lemma_first_noreply(all);
        let first = first_noreply(all);
        if first < all.len() {
            assert(is_noreply(all[first].email));
        }
    }
    let mut k: usize = 0;
    while k < emails.len()
        invariant
            k <= emails.len(),
            all == emails_view(emails@),
            first_noreply(all) >= all.len(),
            forall|j: int| 0 <= j < k ==> !(#[trigger] all[j]).primary,
        decreases emails.len() - k,
    {
        if emails[k].primary {
            proof {
                lemma_first_primary(all);
                let first = first_primary(all);
                assert(all[k as int].primary);
                if first < k {
                    assert(all[first].primary);
                }
            }
            return emails[k].email.clone();
        }
        k += 1;
    }
    proof {
        lemma_first_primary(all);
        let first = first_primary(all);
        if first < all.len() {
            assert(all[first].primary);
        }
    }
    if emails.len() > 0 {
        return emails[0].email.clone();
    }
    match profile {
        Some(email) => email,
        None => String::new(),
    }
}

/// What follows an answer to the question whether the user has authorised
/// the login: `token` and `error` are the two fields of the answer.
pub fn next_poll_step(token: Option<String>, error: Option<String>) -> (r: PollStep)
    ensures
        r@ == poll_step(opt_view(token), opt_view(error)),
{
    match token {
        Some(t) => PollStep::Authorized(t),
        None => match error {
            Some(e) => {
                if e == String::from_str("authorization_pending") || e == String::from_str(
                    "slow_down",
                ) {
                    PollStep::Wait
                } else {
                    PollStep::Failed(e)
                }
            },
            None => PollStep::Wait,
        },
    }
}

} // verus!
