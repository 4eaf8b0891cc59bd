//! What the list view shows: the rows, the widths of their columns, and
//! the lines around them.

use vstd::prelude::*;
use crate::commands::list::ListState;
use crate::identity::{
    GitIdentityView, Unmanaged, UnmanagedView, unmanaged_accounts, unmanaged_view,
};
use crate::models::{Account, AccountView, Config};
use crate::style::{
    Hue, Span, SpanView, Style, frame_paints, frame_view, is_painting, line_view, paint_frame,
    paint_line, plain, push_line, push_span, span, span_of, span_owned,
};
use crate::term::{TermOp, TermOpView, ops_view};
use crate::text::{
    byte_len, largest, larger, pad_right, padded, repeat_str, repeated, sat_add, sat_sub,
    spaces, texts,
};
use crate::render::{clear_frame_ops, emit};
use crate::tui::{pointer, pointer_span, repaints};
use crate::utils::scope_name;

verus! {

/// The width that an account's name takes: the username and, where there
/// is an alias, a colon and the alias.
pub open spec fn name_len(account: AccountView) -> usize {
    sat_add(
        byte_len(account.username),
        match account.alias {
            Some(alias) => sat_add(byte_len(alias), 1),
            None => 0,
        },
    )
}

/// The width that an email takes, in its angle brackets.
pub open spec fn email_len(email: Seq<char>) -> usize {
    sat_add(byte_len(email), 2)
}

/// The name widths of all rows.
pub open spec fn name_lens(accounts: Seq<AccountView>, unmanaged: Seq<UnmanagedView>) -> Seq<
    usize,
> {
    Seq::new(accounts.len(), |i: int| name_len(accounts[i])) + Seq::new(
        unmanaged.len(),
        |i: int| byte_len(unmanaged[i].name),
    )
}

/// The email widths of all rows.
pub open spec fn email_lens(accounts: Seq<AccountView>, unmanaged: Seq<UnmanagedView>) -> Seq<
    usize,
> {
    Seq::new(accounts.len(), |i: int| email_len(accounts[i].email)) + Seq::new(
        unmanaged.len(),
        |i: int| email_len(unmanaged[i].email),
    )
}

/// The width of the name column: that of the widest name, and at least
/// that of its heading.
pub open spec fn name_width(accounts: Seq<AccountView>, unmanaged: Seq<UnmanagedView>) -> usize {
    larger(8, largest(name_lens(accounts, unmanaged)))
}

/// The width of the email column: that of the widest email, and at least
/// that of its heading.
pub open spec fn email_width(accounts: Seq<AccountView>, unmanaged: Seq<UnmanagedView>) -> usize {
    larger(5, largest(email_lens(accounts, unmanaged)))
}

/// The length of the rules above and below the rows: as wide as the
/// columns, but never wider than the terminal less a margin of four.
pub open spec fn rule_len(name_width: usize, email_width: usize, cols: u16) -> usize {
    let wanted = name_width + email_width + 10;
    let room = if cols < 4 {
        0
    } else {
        cols - 4
    };
    if wanted <= room {
        wanted as usize
    } else {
        room as usize
    }
}

/// The marker in front of a row that is not the current one.
pub open spec fn no_pointer() -> SpanView {
    span_of(" "@, Style::plain())
}

/// Two spaces, the margin in front of most lines.
pub open spec fn margin() -> SpanView {
    span_of("  "@, Style::plain())
}

/// The title line, with the version behind the name.
pub open spec fn title_line(version: Seq<char>) -> Seq<SpanView> {
    seq![
        margin(),
        span_of("GITAS"@, Style::plain().bold()),
        span_of(" "@, Style::plain()),
        span_of("(GitHub Account Switch)"@, Style::plain().dimmed()),
        span_of(" "@, Style::plain()),
        span_of("v"@ + version, Style::plain().dimmed()),
    ]
}

/// What the keys do, as the list tells its user.
pub const KEY_HELP: &'static str =
    "\u{2191}\u{2193} select \u{b7} Enter switch \u{b7} e edit \u{b7} Backspace remove \u{b7} q quit";

/// The line that names the keys.
pub open spec fn help_line() -> Seq<SpanView> {
    seq![margin(), span_of(KEY_HELP@, Style::plain().dimmed())]
}

/// The headings of the three columns.
pub open spec fn heading_line(name_width: usize, email_width: usize) -> Seq<SpanView> {
    seq![
        span_of("    "@, Style::plain()),
        span_of(padded("Username"@, name_width), Style::plain().dimmed()),
        margin(),
        span_of(padded("Email"@, email_width), Style::plain().dimmed()),
        margin(),
        span_of("Scope"@, Style::plain().dimmed()),
    ]
}

/// A horizontal rule of `len` strokes.
pub open spec fn rule_line(len: usize) -> Seq<SpanView> {
    seq![margin(), span_of(repeated("\u{2500}"@, len as nat), Style::plain().dimmed())]
}

/// The line shown in place of the rows where there are none.
pub open spec fn no_accounts_line() -> Seq<SpanView> {
    seq![margin(), span_of("No accounts found."@, Style::plain().italic().dimmed())]
}

/// The pointer of a row.
pub open spec fn pointer_of(current: bool) -> SpanView {
    if current {
        pointer_span()
    } else {
        no_pointer()
    }
}

/// The row of an account.  An account that is the repository's identity is
/// green and marked `local`; one that is the global identity is cyan and
/// marked `global`; the repository comes first where an account is both.
pub open spec fn account_row(
    account: AccountView,
    current: bool,
    git: GitIdentityView,
    name_width: usize,
    email_width: usize,
) -> Seq<SpanView> {
    let local = git.is_local(account);
    let global = git.is_global(account);
    seq![
        pointer_of(current),
        span_of(" "@, Style::plain()),
        if local {
            span_of("\u{25cf}"@, Style::hue(Hue::Green).bold())
        } else if global {
            span_of("\u{25cf}"@, Style::hue(Hue::Cyan).bold())
        } else {
            span_of("\u{25cb}"@, Style::plain().dimmed())
        },
        span_of(" "@, Style::plain()),
        span_of(
            account.username,
            if local {
                Style::hue(Hue::Green).bold()
            } else if global {
                Style::hue(Hue::Cyan).bold()
            } else {
                Style::hue(Hue::White)
            },
        ),
        match account.alias {
            Some(alias) => span_of(":"@ + alias, Style::plain().dimmed()),
            None => span_of(Seq::empty(), Style::plain()),
        },
        span_of(spaces(sat_sub(name_width, name_len(account))), Style::plain()),
        margin(),
        span_of("<"@ + account.email + ">"@, Style::plain().dimmed()),
        span_of(spaces(sat_sub(email_width, email_len(account.email))), Style::plain()),
        margin(),
        if local {
            span_of("local"@, Style::hue(Hue::Green))
        } else if global {
            span_of("global"@, Style::hue(Hue::Cyan))
        } else {
            span_of(Seq::empty(), Style::plain())
        },
    ]
}

/// The row of an unmanaged identity, all in yellow.
pub open spec fn unmanaged_row(
    entry: UnmanagedView,
    current: bool,
    name_width: usize,
    email_width: usize,
) -> Seq<SpanView> {
    seq![
        pointer_of(current),
        span_of(" "@, Style::plain()),
        span_of("\u{25cf}"@, Style::hue(Hue::Yellow).bold()),
        span_of(" "@, Style::plain()),
        span_of(entry.name, Style::hue(Hue::Yellow)),
        span_of(spaces(sat_sub(name_width, byte_len(entry.name))), Style::plain()),
        margin(),
        span_of("<"@ + entry.email + ">"@, Style::plain().dimmed()),
        span_of(spaces(sat_sub(email_width, email_len(entry.email))), Style::plain()),
        margin(),
        span_of(scope_name(entry.scope), Style::hue(Hue::Yellow)),
        span_of(" "@, Style::plain()),
        span_of("(unmanaged)"@, Style::plain().dimmed().italic()),
    ]
}

/// The rows: the accounts and then the unmanaged identities, or one line
/// that says that there are none.
pub open spec fn row_lines(
    accounts: Seq<AccountView>,
    unmanaged: Seq<UnmanagedView>,
    git: GitIdentityView,
    cursor: int,
    name_width: usize,
    email_width: usize,
) -> Seq<Seq<SpanView>> {
    if accounts.len() == 0 && unmanaged.len() == 0 {
        seq![no_accounts_line()]
    } else {
        Seq::new(
            accounts.len(),
            |i: int| account_row(accounts[i], i == cursor, git, name_width, email_width),
        ) + Seq::new(
            unmanaged.len(),
            |i: int|
                unmanaged_row(
                    unmanaged[i],
                    accounts.len() + i == cursor,
                    name_width,
                    email_width,
                ),
        )
    }
}

/// What stands above the rows.
pub open spec fn head_lines(
    version: Seq<char>,
    name_width: usize,
    email_width: usize,
    rule: usize,
) -> Seq<Seq<SpanView>> {
    seq![
        Seq::empty(),
        title_line(version),
        help_line(),
        Seq::empty(),
        heading_line(name_width, email_width),
        rule_line(rule),
    ]
}

/// The whole frame of the list view.
pub open spec fn frame_of(
    accounts: Seq<AccountView>,
    unmanaged: Seq<UnmanagedView>,
    git: GitIdentityView,
    cursor: int,
    cols: u16,
    version: Seq<char>,
) -> Seq<Seq<SpanView>> {
    let nw = name_width(accounts, unmanaged);
    let ew = email_width(accounts, unmanaged);
    let rule = rule_len(nw, ew, cols);
    head_lines(version, nw, ew, rule) + row_lines(accounts, unmanaged, git, cursor, nw, ew) + seq![
        rule_line(rule),
        Seq::empty(),
    ]
}

/// The number of lines of the list view's frame: eight around the rows,
/// and one line in place of the rows where there are none.
pub proof fn lemma_frame_len(
    accounts: Seq<AccountView>,
    unmanaged: Seq<UnmanagedView>,
    git: GitIdentityView,
    cursor: int,
    cols: u16,
    version: Seq<char>,
)
    ensures
        frame_of(accounts, unmanaged, git, cursor, cols, version).len() == 8 + if accounts.len()
            + unmanaged.len() == 0 {
            1
        } else {
            accounts.len() + unmanaged.len()
        },
{
}

/// The width that an account's name takes.
pub fn account_name_len(account: &Account) -> (r: usize)
    ensures
        r == name_len(account@),
{
    let alias_len = match &account.alias {
        Some(alias) => alias.as_str().len().saturating_add(1),
        None => 0,
    };
    account.username.as_str().len().saturating_add(alias_len)
}

/// The widths of the name column and of the email column.
pub fn column_widths(config: &Config, unmanaged: &Vec<Unmanaged>) -> (r: (usize, usize))
    ensures
        r.0 == name_width(config@, unmanaged_view(unmanaged@)),
        r.1 == email_width(config@, unmanaged_view(unmanaged@)),
{
    let ghost names = name_lens(config@, unmanaged_view(unmanaged@));
    let ghost emails = email_lens(config@, unmanaged_view(unmanaged@));
    let mut widest_name: usize = 0;
    let mut widest_email: usize = 0;
    let mut i: usize = 0;
    assert(names.take(0) =~= Seq::<usize>::empty());
    assert(emails.take(0) =~= Seq::<usize>::empty());
    while i < config.accounts.len()
        invariant
            i <= config.accounts.len(),
            names == name_lens(config@, unmanaged_view(unmanaged@)),
            emails == email_lens(config@, unmanaged_view(unmanaged@)),
            widest_name == largest(names.take(i as int)),
            widest_email == largest(emails.take(i as int)),
        decreases config.accounts.len() - i,
    {
        let n = account_name_len(&config.accounts[i]);
        let e = config.accounts[i].email.as_str().len().saturating_add(2);
        proof {
            assert(names.take(i + 1).drop_last() =~= names.take(i as int));
            assert(emails.take(i + 1).drop_last() =~= emails.take(i as int));
            assert(names[i as int] == name_len(config@[i as int]));
            assert(emails[i as int] == email_len(config@[i as int].email));
        }
        if n > widest_name {
            widest_name = n;
        }
        if e > widest_email {
            widest_email = e;
        }
        i += 1;
    }
    let done = config.accounts.len();
    let mut j: usize = 0;
    while j < unmanaged.len()
        invariant
            j <= unmanaged.len(),
            done == config.accounts.len(),
            names == name_lens(config@, unmanaged_view(unmanaged@)),
            emails == email_lens(config@, unmanaged_view(unmanaged@)),
            widest_name == largest(names.take(done + j)),
            widest_email == largest(emails.take(done + j)),
        decreases unmanaged.len() - j,
    {
        let n = unmanaged[j].name.as_str().len();
        let e = unmanaged[j].email.as_str().len().saturating_add(2);
        proof {
            assert(names.take(done + j + 1).drop_last() =~= names.take(done + j));
            assert(emails.take(done + j + 1).drop_last() =~= emails.take(done + j));
            assert(names[done + j] == byte_len(unmanaged_view(unmanaged@)[j as int].name));
            assert(emails[done + j] == email_len(unmanaged_view(unmanaged@)[j as int].email));
        }
        if n > widest_name {
            widest_name = n;
        }
        if e > widest_email {
            widest_email = e;
        }
        j += 1;
    }
    proof {
        assert(names.take(names.len() as int) =~= names);
        assert(emails.take(emails.len() as int) =~= emails);
    }
    (
        if widest_name > 8 {
            widest_name
        } else {
            8
        },
        if widest_email > 5 {
            widest_email
        } else {
            5
        },
    )
}

/// The length of the rules above and below the rows.
pub fn rule_length(name_width: usize, email_width: usize, cols: u16) -> (r: usize)
    ensures
        r == rule_len(name_width, email_width, cols),
{
    let room = (cols as usize).saturating_sub(4);
    let wanted = name_width.saturating_add(email_width).saturating_add(10);
    if wanted <= room {
        wanted
    } else {
        room
    }
}

/// The pointer of a row: `>` on the current row, a space on the others.
pub fn row_pointer(current: bool) -> (r: Span)
    ensures
        r@ == pointer_of(current),
{
    if current {
        pointer()
    } else {
        plain(" ")
    }
}

/// The email in its angle brackets, dimmed.
fn email_span(email: &String) -> (r: Span)
    ensures
        r@ == span_of("<"@ + email@ + ">"@, Style::plain().dimmed()),
{
    let mut text = String::from_str("<");
    text.append(email.as_str());
    text.append(">");
    span_owned(text, Style::plain().dimmed())
}

/// A rule of `len` strokes.
fn rule(len: usize) -> (r: Vec<Span>)
    ensures
        line_view(r@) == rule_line(len),
{
    let mut line: Vec<Span> = Vec::new();
    push_span(&mut line, plain("  "));
    push_span(&mut line, span_owned(repeat_str("\u{2500}", len), Style::plain().dimmed()));
    assert(line_view(line@) =~= rule_line(len));
    line
}

/// A line with nothing on it.
fn empty_line() -> (r: Vec<Span>)
    ensures
        line_view(r@) == Seq::<SpanView>::empty(),
{
    let line: Vec<Span> = Vec::new();
    assert(line_view(line@) =~= Seq::<SpanView>::empty());
    line
}

impl ListState {
    /// The identities that git has configured and the account list does not
    /// hold: the rows that follow the accounts.
    pub fn get_unmanaged_accounts(&self) -> (r: Vec<Unmanaged>)
        ensures
            unmanaged_view(r@) == self.unmanaged(),
            r@.len() <= 2,
    {
        unmanaged_accounts(&self.config, &self.git)
    }

    /// The row of `account` as spans, current where `index` is the cursor.
    pub fn account_line(
        &self,
        index: usize,
        account: &Account,
        name_width: usize,
        email_width: usize,
    ) -> (r: Vec<Span>)
        ensures
            line_view(r@) == account_row(
                account@,
                index == self.cursor,
                self.git@,
                name_width,
                email_width,
            ),
    {
        let local = self.git.is_local(account);
        let global = self.git.is_global(account);
        let mut line: Vec<Span> = Vec::new();
        push_span(&mut line, row_pointer(index == self.cursor));
        push_span(&mut line, plain(" "));
        if local {
            push_span(&mut line, span("\u{25cf}", Style::hue(Hue::Green).bold()));
        } else if global {
            push_span(&mut line, span("\u{25cf}", Style::hue(Hue::Cyan).bold()));
        } else {
            push_span(&mut line, span("\u{25cb}", Style::plain().dimmed()));
        }
        push_span(&mut line, plain(" "));
        let name_style = if local {
            Style::hue(Hue::Green).bold()
        } else if global {
            Style::hue(Hue::Cyan).bold()
        } else {
            Style::hue(Hue::White)
        };
        push_span(&mut line, span(account.username.as_str(), name_style));
        match &account.alias {
            Some(alias) => {
                let mut text = String::from_str(":");
                text.append(alias.as_str());
                push_span(&mut line, span_owned(text, Style::plain().dimmed()));
            },
            None => {
                push_span(&mut line, span_owned(String::new(), Style::plain()));
            },
        }
        let name_pad = repeat_str(" ", name_width.saturating_sub(account_name_len(account)));
        push_span(&mut line, span_owned(name_pad, Style::plain()));
        push_span(&mut line, plain("  "));
        push_span(&mut line, email_span(&account.email));
        let email_pad = repeat_str(
            " ",
            email_width.saturating_sub(account.email.as_str().len().saturating_add(2)),
        );
        push_span(&mut line, span_owned(email_pad, Style::plain()));
        push_span(&mut line, plain("  "));
        if local {
            push_span(&mut line, span("local", Style::hue(Hue::Green)));
        } else if global {
            push_span(&mut line, span("global", Style::hue(Hue::Cyan)));
        } else {
            push_span(&mut line, span_owned(String::new(), Style::plain()));
        }
        assert(line_view(line@) =~= account_row(
            account@,
            index == self.cursor,
            self.git@,
            name_width,
            email_width,
        ));
        line
    }

    /// The row of `account`, painted.
    pub fn format_account_line(
        &self,
        index: usize,
        account: &Account,
        name_width: usize,
        email_width: usize,
    ) -> (r: String)
        ensures
            is_painting(
                account_row(account@, index == self.cursor, self.git@, name_width, email_width),
                r@,
            ),
    {
        paint_line(&self.account_line(index, account, name_width, email_width))
    }

    /// The row of an unmanaged identity as spans.  It is the `index`-th of
    /// its kind and follows `accounts_len` accounts.
    pub fn unmanaged_line(
        &self,
        index: usize,
        accounts_len: usize,
        entry: &Unmanaged,
        name_width: usize,
        email_width: usize,
    ) -> (r: Vec<Span>)
        ensures
            line_view(r@) == unmanaged_row(
                entry@,
                accounts_len + index == self.cursor,
                name_width,
                email_width,
            ),
    {
        let current = self.cursor >= accounts_len && self.cursor - accounts_len == index;
        let mut line: Vec<Span> = Vec::new();
        push_span(&mut line, row_pointer(current));
        push_span(&mut line, plain(" "));
        push_span(&mut line, span("\u{25cf}", Style::hue(Hue::Yellow).bold()));
        push_span(&mut line, plain(" "));
        push_span(&mut line, span(entry.name.as_str(), Style::hue(Hue::Yellow)));
        let name_pad = repeat_str(" ", name_width.saturating_sub(entry.name.as_str().len()));
        push_span(&mut line, span_owned(name_pad, Style::plain()));
        push_span(&mut line, plain("  "));
        push_span(&mut line, email_span(&entry.email));
        let email_pad = repeat_str(
            " ",
            email_width.saturating_sub(entry.email.as_str().len().saturating_add(2)),
        );
        push_span(&mut line, span_owned(email_pad, Style::plain()));
        push_span(&mut line, plain("  "));
        push_span(&mut line, span(entry.scope.name(), Style::hue(Hue::Yellow)));
        push_span(&mut line, plain(" "));
        push_span(&mut line, span("(unmanaged)", Style::plain().dimmed().italic()));
        assert(line_view(line@) =~= unmanaged_row(
            entry@,
            accounts_len + index == self.cursor,
            name_width,
            email_width,
        ));
        line
    }

    /// The row of an unmanaged identity, painted.
    pub fn format_unmanaged_line(
        &self,
        index: usize,
        accounts_len: usize,
        entry: &Unmanaged,
        name_width: usize,
        email_width: usize,
    ) -> (r: String)
        ensures
            is_painting(
                unmanaged_row(
                    entry@,
                    accounts_len + index == self.cursor,
                    name_width,
                    email_width,
                ),
                r@,
            ),
    {
        paint_line(&self.unmanaged_line(index, accounts_len, entry, name_width, email_width))
    }

    /// The frame of the list view as spans: title, key help, column
    /// headings, the rows between two rules.  `cols` is the width of the
    /// terminal, and `version` what the title shows as the tool's version.
    pub fn frame_lines(&self, unmanaged: &Vec<Unmanaged>, cols: u16, version: &str) -> (r: Vec<
        Vec<Span>,
    >)
        ensures
            frame_view(r@) == frame_of(
                self.config@,
                unmanaged_view(unmanaged@),
                self.git@,
                self.cursor as int,
                cols,
                version@,
            ),
    {
        let ghost accounts = self.config@;
        let ghost others = unmanaged_view(unmanaged@);
        let (nw, ew) = column_widths(&self.config, unmanaged);
        let rule_len = rule_length(nw, ew, cols);
        let mut frame: Vec<Vec<Span>> = Vec::new();
        push_line(&mut frame, empty_line());

        let mut title: Vec<Span> = Vec::new();
        push_span(&mut title, plain("  "));
        push_span(&mut title, span("GITAS", Style::plain().bold()));
        push_span(&mut title, plain(" "));
        push_span(&mut title, span("(GitHub Account Switch)", Style::plain().dimmed()));
        push_span(&mut title, plain(" "));
        let mut shown_version = String::from_str("v");
        shown_version.append(version);
        push_span(&mut title, span_owned(shown_version, Style::plain().dimmed()));
        assert(line_view(title@) =~= title_line(version@));
        push_line(&mut frame, title);

        let mut help: Vec<Span> = Vec::new();
        push_span(&mut help, plain("  "));
        push_span(&mut help, span(KEY_HELP, Style::plain().dimmed()));
        assert(line_view(help@) =~= help_line());
        push_line(&mut frame, help);
        push_line(&mut frame, empty_line());

        let mut heading: Vec<Span> = Vec::new();
        push_span(&mut heading, plain("    "));
        push_span(&mut heading, span_owned(pad_right("Username", nw), Style::plain().dimmed()));
        push_span(&mut heading, plain("  "));
        push_span(&mut heading, span_owned(pad_right("Email", ew), Style::plain().dimmed()));
        push_span(&mut heading, plain("  "));
        push_span(&mut heading, span("Scope", Style::plain().dimmed()));
        assert(line_view(heading@) =~= heading_line(nw, ew));
        push_line(&mut frame, heading);
        push_line(&mut frame, rule(rule_len));
        let ghost head = frame_view(frame@);
        assert(head =~= head_lines(version@, nw, ew, rule_len));

        let ghost rows = row_lines(accounts, others, self.git@, self.cursor as int, nw, ew);
        if self.config.accounts.len() == 0 && unmanaged.len() == 0 {
            let mut none: Vec<Span> = Vec::new();
            push_span(&mut none, plain("  "));
            push_span(&mut none, span("No accounts found.", Style::plain().italic().dimmed()));
            assert(line_view(none@) =~= no_accounts_line());
            push_line(&mut frame, none);
            assert(frame_view(frame@) =~= head + rows);
        } else {
            let mut i: usize = 0;
            assert(frame_view(frame@) =~= head + rows.take(0));
            while i < self.config.accounts.len()
                invariant
                    i <= self.config.accounts.len(),
                    accounts == self.config@,
                    others == unmanaged_view(unmanaged@),
                    accounts.len() + others.len() > 0,
                    rows == row_lines(accounts, others, self.git@, self.cursor as int, nw, ew),
                    frame_view(frame@) == head + rows.take(i as int),
                decreases self.config.accounts.len() - i,
            {
                let line = self.account_line(i, &self.config.accounts[i], nw, ew);
                push_line(&mut frame, line);
                proof {
                    assert(rows[i as int] == account_row(
                        accounts[i as int],
                        i == self.cursor,
                        self.git@,
                        nw,
                        ew,
                    ));
                    assert(rows.take(i + 1) =~= rows.take(i as int).push(rows[i as int]));
                    assert(frame_view(frame@) =~= head + rows.take(i + 1));
                }
                i += 1;
            }
            let done = self.config.accounts.len();
            let mut j: usize = 0;
            while j < unmanaged.len()
                invariant
                    j <= unmanaged.len(),
                    done == self.config.accounts.len(),
                    accounts == self.config@,
                    others == unmanaged_view(unmanaged@),
                    accounts.len() + others.len() > 0,
                    rows == row_lines(accounts, others, self.git@, self.cursor as int, nw, ew),
                    frame_view(frame@) == head + rows.take(done + j),
                decreases unmanaged.len() - j,
            {
                let line = self.unmanaged_line(j, done, &unmanaged[j], nw, ew);
                push_line(&mut frame, line);
                proof {
                    assert(rows[done + j] == unmanaged_row(
                        others[j as int],
                        done + j == self.cursor,
                        nw,
                        ew,
                    ));
                    assert(rows.take(done + j + 1) =~= rows.take(done + j).push(rows[done + j]));
                    assert(frame_view(frame@) =~= head + rows.take(done + j + 1));
                }
                j += 1;
            }
            assert(rows.take(rows.len() as int) =~= rows);
        }
        let ghost body = frame_view(frame@);
        push_line(&mut frame, rule(rule_len));
        push_line(&mut frame, empty_line());
        assert(frame_view(frame@) =~= body + seq![rule_line(rule_len), Seq::empty()]);
        frame
    }

    /// The frame of the list view, painted line by line.
    pub fn build_frame(&self, unmanaged: &Vec<Unmanaged>, cols: u16, version: &str) -> (r: Vec<
        String,
    >)
        ensures
            frame_paints(
                frame_of(
                    self.config@,
                    unmanaged_view(unmanaged@),
                    self.git@,
                    self.cursor as int,
                    cols,
                    version@,
                ),
                texts(r@),
            ),
    {
        paint_frame(&self.frame_lines(unmanaged, cols, version))
    }

    /// Paints the list over the frame painted before.
    pub fn render(&mut self, cols: u16, version: &str) -> (ops: Vec<TermOp>)
        ensures
            repaints(
                frame_of(
                    old(self).config@,
                    old(self).unmanaged(),
                    old(self).git@,
                    old(self).cursor as int,
                    cols,
                    version@,
                ),
                old(self).renderer.previous_line_count as int,
                ops_view(ops@),
            ),
            final(self).renderer.previous_line_count == frame_of(
                old(self).config@,
                old(self).unmanaged(),
                old(self).git@,
                old(self).cursor as int,
                cols,
                version@,
            ).len(),
            final(self).config == old(self).config,
            final(self).git == old(self).git,
            final(self).cursor == old(self).cursor,
    {
        let unmanaged = self.get_unmanaged_accounts();
        let frame = self.build_frame(&unmanaged, cols, version);
        self.renderer.render(&frame)
    }

    /// Removes the list from the screen.
    pub fn clear_frame(&mut self) -> (ops: Vec<TermOp>)
        ensures
            ops_view(ops@) == clear_frame_ops(old(self).renderer.previous_line_count as int),
            final(self).renderer.previous_line_count == 0,
            final(self).config == old(self).config,
            final(self).git == old(self).git,
            final(self).cursor == old(self).cursor,
    {
        self.renderer.clear_frame()
    }

    /// What leaving the list view sends to the terminal, on every way out:
    /// the frame is removed, the cursor shown, and raw input mode left.
    pub fn exit_cleanup(&mut self) -> (ops: Vec<TermOp>)
        ensures
            ops_view(ops@) == clear_frame_ops(old(self).renderer.previous_line_count as int)
                + seq![TermOpView::ShowCursor, TermOpView::Flush, TermOpView::DisableRawMode],
            final(self).renderer.previous_line_count == 0,
            final(self).config == old(self).config,
            final(self).git == old(self).git,
            final(self).cursor == old(self).cursor,
    {
        let mut ops = self.renderer.clear_frame();
        let ghost cleared = ops_view(ops@);
        emit(&mut ops, TermOp::ShowCursor);
        emit(&mut ops, TermOp::Flush);
        emit(&mut ops, TermOp::DisableRawMode);
        assert(ops_view(ops@) =~= cleared + seq![
            TermOpView::ShowCursor,
            TermOpView::Flush,
            TermOpView::DisableRawMode,
        ]);
        ops
    }
}

} // verus!
