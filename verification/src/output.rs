//! Rendering of typed results as text.  Every function returns the full
//! text, each line ending in a newline; printing it is the caller's job.
//! Styling is explicit: a `color` flag decides whether ANSI codes are
//! emitted, so the caller resolves terminal detection and the no-color
//! conventions once and passes the result in.

use vstd::prelude::*;
use crate::commands::comment::Comment;
use crate::commands::cycle::Cycle;
use crate::commands::cycle::CycleDetail;
use crate::commands::document::Document;
use crate::commands::document::DocumentDetail;
use crate::commands::issue::Issue;
use crate::commands::issue::IssueDetail;
use crate::commands::label::Label;
use crate::commands::search::SearchResult;
use crate::commands::team::Team;
use crate::commands::workflow::WorkflowState;
use crate::error::Error;
use crate::text::dec_str;
use crate::text::int_str;
use crate::text::push_char;

verus! {

/// Relies on owo_colors::Style: bold text is the ANSI bold prefix, the
/// text, and the reset suffix.
#[verifier::external_body]
fn paint_bold(s: &str) -> (r: String)
    ensures
        r@ == "\u{1b}[1m"@ + s@ + "\u{1b}[0m"@,
{
    owo_colors::OwoColorize::style(&s, owo_colors::Style::new().bold()).to_string()
}

/// Relies on owo_colors::Style: dimmed text uses the ANSI faint attribute.
#[verifier::external_body]
fn paint_dimmed(s: &str) -> (r: String)
    ensures
        r@ == "\u{1b}[2m"@ + s@ + "\u{1b}[0m"@,
{
    owo_colors::OwoColorize::style(&s, owo_colors::Style::new().dimmed()).to_string()
}

/// Relies on owo_colors::Style: bold and dimmed combine into one ANSI
/// prefix, bold first.
#[verifier::external_body]
fn paint_bold_dimmed(s: &str) -> (r: String)
    ensures
        r@ == "\u{1b}[1;2m"@ + s@ + "\u{1b}[0m"@,
{
    owo_colors::OwoColorize::style(&s, owo_colors::Style::new().bold().dimmed()).to_string()
}

/// Relies on owo_colors::Style: a red foreground is code 31, written before
/// the bold attribute.
#[verifier::external_body]
fn paint_red_bold(s: &str) -> (r: String)
    ensures
        r@ == "\u{1b}[31;1m"@ + s@ + "\u{1b}[0m"@,
{
    owo_colors::OwoColorize::style(&s, owo_colors::Style::new().red().bold()).to_string()
}

/// Relies on owo_colors::Style: a cyan foreground is code 36, written
/// before the bold attribute.
#[verifier::external_body]
fn paint_cyan_bold(s: &str) -> (r: String)
    ensures
        r@ == "\u{1b}[36;1m"@ + s@ + "\u{1b}[0m"@,
{
    owo_colors::OwoColorize::style(&s, owo_colors::Style::new().cyan().bold()).to_string()
}

/// Bold text, when color is on.
pub open spec fn bold_text(s: Seq<char>, color: bool) -> Seq<char> {
    if color {
        "\u{1b}[1m"@ + s + "\u{1b}[0m"@
    } else {
        s
    }
}

/// Dimmed text, when color is on.
pub open spec fn dim_text(s: Seq<char>, color: bool) -> Seq<char> {
    if color {
        "\u{1b}[2m"@ + s + "\u{1b}[0m"@
    } else {
        s
    }
}

/// Bold and dimmed text, when color is on.
pub open spec fn bold_dim_text(s: Seq<char>, color: bool) -> Seq<char> {
    if color {
        "\u{1b}[1;2m"@ + s + "\u{1b}[0m"@
    } else {
        s
    }
}

/// Red bold text, when color is on.
pub open spec fn red_bold_text(s: Seq<char>, color: bool) -> Seq<char> {
    if color {
        "\u{1b}[31;1m"@ + s + "\u{1b}[0m"@
    } else {
        s
    }
}

/// Cyan bold text, when color is on.
pub open spec fn cyan_bold_text(s: Seq<char>, color: bool) -> Seq<char> {
    if color {
        "\u{1b}[36;1m"@ + s + "\u{1b}[0m"@
    } else {
        s
    }
}

fn push_bold(out: &mut String, s: &str, color: bool)
    ensures
        final(out)@ == old(out)@ + bold_text(s@, color),
{
    if color {
        let p = paint_bold(s);
        out.append(p.as_str());
    } else {
        out.append(s);
    }
}

fn push_dimmed(out: &mut String, s: &str, color: bool)
    ensures
        final(out)@ == old(out)@ + dim_text(s@, color),
{
    if color {
        let p = paint_dimmed(s);
        out.append(p.as_str());
    } else {
        out.append(s);
    }
}

fn push_bold_dimmed(out: &mut String, s: &str, color: bool)
    ensures
        final(out)@ == old(out)@ + bold_dim_text(s@, color),
{
    if color {
        let p = paint_bold_dimmed(s);
        out.append(p.as_str());
    } else {
        out.append(s);
    }
}

fn push_red_bold(out: &mut String, s: &str, color: bool)
    ensures
        final(out)@ == old(out)@ + red_bold_text(s@, color),
{
    if color {
        let p = paint_red_bold(s);
        out.append(p.as_str());
    } else {
        out.append(s);
    }
}

fn push_cyan_bold(out: &mut String, s: &str, color: bool)
    ensures
        final(out)@ == old(out)@ + cyan_bold_text(s@, color),
{
    if color {
        let p = paint_cyan_bold(s);
        out.append(p.as_str());
    } else {
        out.append(s);
    }
}

/// A key/value line: the dimmed label, a colon and a space, the value.
pub open spec fn kv_line(label: Seq<char>, value: Seq<char>, color: bool) -> Seq<char> {
    dim_text(label, color) + ": "@ + value + "\n"@
}

fn push_kv_line(out: &mut String, label: &str, value: &str, color: bool)
    ensures
        final(out)@ == old(out)@ + kv_line(label@, value@, color),
{
    push_dimmed(out, label, color);
    out.append(": ");
    out.append(value);
    out.append("\n");
    assert(final(out)@ =~= old(out)@ + kv_line(label@, value@, color));
}

/// The first ten characters of a timestamp: its date part.
pub open spec fn date_part(ts: Seq<char>) -> Seq<char> {
    ts.subrange(0, 10)
}

fn push_date(out: &mut String, ts: &str)
    requires
        ts@.len() >= 10,
    ensures
        final(out)@ == old(out)@ + date_part(ts@),
{
    let d = ts.substring_char(0, 10);
    out.append(d);
}

/// A title cut to a character budget: over budget it is shortened to one
/// character less than the budget and an ellipsis is added; otherwise it is
/// unchanged.
pub open spec fn truncated(s: Seq<char>, max: nat) -> Seq<char> {
    if s.len() > max {
        s.subrange(0, if max == 0 {
            0
        } else {
            max - 1
        }) + seq!['\u{2026}']
    } else {
        s
    }
}

/// Cuts a title to a character budget, with an ellipsis when it was over.
pub fn truncate(s: &str, max: usize) -> (r: String)
    ensures
        r@ == truncated(s@, max as nat),
{
    let len = s.unicode_len();
    if len > max {
        let keep: usize = if max == 0 {
            0
        } else {
            max - 1
        };
        let mut r = s.substring_char(0, keep).to_owned();
        push_char(&mut r, '\u{2026}');
        assert(r@ =~= truncated(s@, max as nat));
        r
    } else {
        s.to_owned()
    }
}

/// The label of a priority value: 0 to 4 are named, anything else shows as
/// an em dash placeholder.
pub open spec fn priority_label_text(p: int) -> Seq<char> {
    if p == 0 {
        "None"@
    } else if p == 1 {
        "Urgent"@
    } else if p == 2 {
        "High"@
    } else if p == 3 {
        "Normal"@
    } else if p == 4 {
        "Low"@
    } else {
        "\u{2014}"@
    }
}

/// Maps a priority value to its label.
pub fn priority_label(p: i32) -> (r: String)
    ensures
        r@ == priority_label_text(p as int),
{
    match p {
        0 => String::from_str("None"),
        1 => String::from_str("Urgent"),
        2 => String::from_str("High"),
        3 => String::from_str("Normal"),
        4 => String::from_str("Low"),
        _ => String::from_str("\u{2014}"),
    }
}

/// The text of the authenticated-user view.
pub open spec fn user_text(name: Seq<char>, email: Seq<char>, id: Seq<char>, color: bool) -> Seq<
    char,
> {
    bold_text("Name"@, color) + ": "@ + name + "\n"@ + bold_text("Email"@, color) + ": "@ + email
        + "\n"@ + bold_dim_text("ID"@, color) + ": "@ + dim_text(id, color) + "\n"@
}

/// Renders the authenticated-user view.
pub fn render_user(name: &str, email: &str, id: &str, color: bool) -> (r: String)
    ensures
        r@ == user_text(name@, email@, id@, color),
{
    let mut out = String::new();
    push_bold(&mut out, "Name", color);
    out.append(": ");
    out.append(name);
    out.append("\n");
    push_bold(&mut out, "Email", color);
    out.append(": ");
    out.append(email);
    out.append("\n");
    push_bold_dimmed(&mut out, "ID", color);
    out.append(": ");
    push_dimmed(&mut out, id, color);
    out.append("\n");
    assert(out@ =~= user_text(name@, email@, id@, color));
    out
}

/// The text of an error report: a red bold label, then the message.
pub open spec fn error_text(e: Error, color: bool) -> Seq<char> {
    red_bold_text("Error"@, color) + ": "@ + e.spec_message() + "\n"@
}

/// Renders an error report.
pub fn render_error(e: &Error, color: bool) -> (r: String)
    ensures
        r@ == error_text(*e, color),
{
    let mut out = String::new();
    push_red_bold(&mut out, "Error", color);
    out.append(": ");
    let m = e.message();
    out.append(m.as_str());
    out.append("\n");
    assert(out@ =~= error_text(*e, color));
    out
}

/// One line of the team listing.
pub open spec fn team_line(t: Team, color: bool) -> Seq<char> {
    cyan_bold_text(t.key@, color) + " - "@ + t.name@ + "\n"@
}

/// The lines of the team listing.
pub open spec fn team_lines(teams: Seq<Team>, color: bool) -> Seq<char>
    decreases teams.len(),
{
    if teams.len() == 0 {
        Seq::empty()
    } else {
        team_lines(teams.subrange(0, teams.len() - 1), color) + team_line(
            teams[teams.len() - 1],
            color,
        )
    }
}

/// Renders the team listing: one line per team, or a note that none were
/// found.
pub fn render_teams(teams: &Vec<Team>, color: bool) -> (r: String)
    ensures
        teams@.len() == 0 ==> r@ == "No teams found.\n"@,
        teams@.len() > 0 ==> r@ == team_lines(teams@, color),
{
    if teams.len() == 0 {
        return String::from_str("No teams found.\n");
    }
    let mut out = String::new();
    let mut i: usize = 0;
    while i < teams.len()
        invariant
            i <= teams@.len(),
            out@ == team_lines(teams@.subrange(0, i as int), color),
        decreases teams@.len() - i,
    {
        push_cyan_bold(&mut out, teams[i].key.as_str(), color);
        out.append(" - ");
        out.append(teams[i].name.as_str());
        out.append("\n");
        proof {
            let t = teams@.subrange(0, i + 1);
            assert(t.subrange(0, t.len() - 1) =~= teams@.subrange(0, i as int));
            assert(out@ =~= team_lines(teams@.subrange(0, i + 1), color));
        }
        i = i + 1;
    }
    proof {
        assert(teams@.subrange(0, teams@.len() as int) =~= teams@);
    }
    out
}

/// The text of the team detail view.
pub open spec fn team_detail_text(t: Team, color: bool) -> Seq<char> {
    cyan_bold_text(t.key@, color) + " "@ + bold_text(t.name@, color) + "\n"@ + (match t
        .description {
        Some(d) => if d@.len() > 0 {
            "\n"@ + d@ + "\n"@
        } else {
            Seq::empty()
        },
        None => Seq::empty(),
    })
}

/// Renders the team detail view; an empty description is left out entirely.
pub fn render_team_detail(t: &Team, color: bool) -> (r: String)
    ensures
        r@ == team_detail_text(*t, color),
{
    let mut out = String::new();
    push_cyan_bold(&mut out, t.key.as_str(), color);
    out.append(" ");
    push_bold(&mut out, t.name.as_str(), color);
    out.append("\n");
    if let Some(d) = &t.description {
        if !d.as_str().is_empty() {
            out.append("\n");
            out.append(d.as_str());
            out.append("\n");
        }
    }
    assert(out@ =~= team_detail_text(*t, color));
    out
}

/// One line of the label listing: a dot marker, then the name.
pub open spec fn label_line(l: Label) -> Seq<char> {
    "\u{25cf} "@ + l.name@ + "\n"@
}

/// The lines of the label listing.
pub open spec fn label_lines(labels: Seq<Label>) -> Seq<char>
    decreases labels.len(),
{
    if labels.len() == 0 {
        Seq::empty()
    } else {
        label_lines(labels.subrange(0, labels.len() - 1)) + label_line(labels[labels.len() - 1])
    }
}

/// Renders the label listing: one line per label, or a note that none were
/// found.
pub fn render_labels(labels: &Vec<Label>) -> (r: String)
    ensures
        labels@.len() == 0 ==> r@ == "No labels found.\n"@,
        labels@.len() > 0 ==> r@ == label_lines(labels@),
{
    if labels.len() == 0 {
        return String::from_str("No labels found.\n");
    }
    let mut out = String::new();
    let mut i: usize = 0;
    while i < labels.len()
        invariant
            i <= labels@.len(),
            out@ == label_lines(labels@.subrange(0, i as int)),
        decreases labels@.len() - i,
    {
        out.append("\u{25cf} ");
        out.append(labels[i].name.as_str());
        out.append("\n");
        proof {
            let t = labels@.subrange(0, i + 1);
            assert(t.subrange(0, t.len() - 1) =~= labels@.subrange(0, i as int));
            assert(out@ =~= label_lines(labels@.subrange(0, i + 1)));
        }
        i = i + 1;
    }
    proof {
        assert(labels@.subrange(0, labels@.len() as int) =~= labels@);
    }
    out
}

/// One line of the project listing.
pub open spec fn project_line(p: crate::commands::project::Project, color: bool) -> Seq<char> {
    bold_text(p.name@, color) + " ["@ + p.state@ + "] "@ + dim_text(
        dec_str(p.progress_percent as nat) + "%"@,
        color,
    ) + "\n"@
}

/// The lines of the project listing.
pub open spec fn project_lines(projects: Seq<crate::commands::project::Project>, color: bool) -> Seq<
    char,
>
    decreases projects.len(),
{
    if projects.len() == 0 {
        Seq::empty()
    } else {
        project_lines(projects.subrange(0, projects.len() - 1), color) + project_line(
            projects[projects.len() - 1],
            color,
        )
    }
}

/// Renders the project listing: one line per project with its state and its
/// progress percentage, or a note that none were found.
pub fn render_projects(projects: &Vec<crate::commands::project::Project>, color: bool) -> (r:
    String)
    ensures
        projects@.len() == 0 ==> r@ == "No projects found.\n"@,
        projects@.len() > 0 ==> r@ == project_lines(projects@, color),
{
    if projects.len() == 0 {
        return String::from_str("No projects found.\n");
    }
    let mut out = String::new();
    let mut i: usize = 0;
    while i < projects.len()
        invariant
            i <= projects@.len(),
            out@ == project_lines(projects@.subrange(0, i as int), color),
        decreases projects@.len() - i,
    {
        push_bold(&mut out, projects[i].name.as_str(), color);
        out.append(" [");
        out.append(projects[i].state.as_str());
        out.append("] ");
        let mut pct = crate::text::u64_to_string(projects[i].progress_percent as u64);
        pct.append("%");
        push_dimmed(&mut out, pct.as_str(), color);
        out.append("\n");
        proof {
            let t = projects@.subrange(0, i + 1);
            assert(t.subrange(0, t.len() - 1) =~= projects@.subrange(0, i as int));
            assert(out@ =~= project_lines(projects@.subrange(0, i + 1), color));
        }
        i = i + 1;
    }
    proof {
        assert(projects@.subrange(0, projects@.len() as int) =~= projects@);
    }
    out
}

/// An optional trailing block of free text: a blank line, the text, a
/// newline -- or nothing when the text is absent or empty.
pub open spec fn trailing_block(text: Option<String>) -> Seq<char> {
    match text {
        Some(t) => if t@.len() > 0 {
            "\n"@ + t@ + "\n"@
        } else {
            Seq::empty()
        },
        None => Seq::empty(),
    }
}

fn push_trailing_block(out: &mut String, text: &Option<String>)
    ensures
        final(out)@ == old(out)@ + trailing_block(*text),
{
    if let Some(t) = text {
        if !t.as_str().is_empty() {
            out.append("\n");
            out.append(t.as_str());
            out.append("\n");
        }
    }
    assert(final(out)@ =~= old(out)@ + trailing_block(*text));
}

/// The text of the project detail view.
pub open spec fn project_detail_text(p: crate::commands::project::ProjectDetail, color: bool) -> Seq<
    char,
> {
    bold_text(p.name@, color) + "\n\n"@ + kv_line("State"@, p.state@, color) + kv_line(
        "Progress"@,
        dec_str(p.progress_percent as nat) + "%"@,
        color,
    ) + (match p.start_date {
        Some(d) => kv_line("Start"@, date_part(d@), color),
        None => Seq::empty(),
    }) + (match p.target_date {
        Some(d) => kv_line("Target"@, date_part(d@), color),
        None => Seq::empty(),
    }) + trailing_block(p.description)
}

/// Renders the project detail view.
pub fn render_project_detail(p: &crate::commands::project::ProjectDetail, color: bool) -> (r:
    String)
    requires
        p.start_date matches Some(d) ==> d@.len() >= 10,
        p.target_date matches Some(d) ==> d@.len() >= 10,
    ensures
        r@ == project_detail_text(*p, color),
{
    let mut out = String::new();
    push_bold(&mut out, p.name.as_str(), color);
    out.append("\n\n");
    push_kv_line(&mut out, "State", p.state.as_str(), color);
    let mut pct = crate::text::u64_to_string(p.progress_percent as u64);
    pct.append("%");
    push_kv_line(&mut out, "Progress", pct.as_str(), color);
    if let Some(d) = &p.start_date {
        let dp = d.as_str().substring_char(0, 10);
        push_kv_line(&mut out, "Start", dp, color);
    }
    if let Some(d) = &p.target_date {
        let dp = d.as_str().substring_char(0, 10);
        push_kv_line(&mut out, "Target", dp, color);
    }
    push_trailing_block(&mut out, &p.description);
    assert(out@ =~= project_detail_text(*p, color));
    out
}

/// The period of a cycle: its start and end dates around an arrow.
pub open spec fn period_text(starts_at: Seq<char>, ends_at: Seq<char>) -> Seq<char> {
    date_part(starts_at) + " \u{2192} "@ + date_part(ends_at)
}

fn period_string(starts_at: &str, ends_at: &str) -> (r: String)
    requires
        starts_at@.len() >= 10,
        ends_at@.len() >= 10,
    ensures
        r@ == period_text(starts_at@, ends_at@),
{
    let mut r = String::new();
    push_date(&mut r, starts_at);
    r.append(" \u{2192} ");
    push_date(&mut r, ends_at);
    assert(r@ =~= period_text(starts_at@, ends_at@));
    r
}

/// One line of the cycle listing.
pub open spec fn cycle_line(c: Cycle, color: bool) -> Seq<char> {
    "Cycle "@ + cyan_bold_text(int_str(c.number as int), color) + " "@ + (match c.name {
        Some(n) => n@,
        None => Seq::empty(),
    }) + " "@ + dim_text(period_text(c.starts_at@, c.ends_at@), color) + " "@ + dim_text(
        dec_str(c.progress_percent as nat) + "%"@,
        color,
    ) + "\n"@
}

/// The lines of the cycle listing.
pub open spec fn cycle_lines(cycles: Seq<Cycle>, color: bool) -> Seq<char>
    decreases cycles.len(),
{
    if cycles.len() == 0 {
        Seq::empty()
    } else {
        cycle_lines(cycles.subrange(0, cycles.len() - 1), color) + cycle_line(
            cycles[cycles.len() - 1],
            color,
        )
    }
}

/// Renders the cycle listing: one line per cycle with its period and its
/// progress percentage, or a note that none were found.
#[verifier::rlimit(50)]
pub fn render_cycles(cycles: &Vec<Cycle>, color: bool) -> (r: String)
    requires
        forall|k: int|
            0 <= k < cycles@.len() ==> (#[trigger] cycles@[k].starts_at)@.len() >= 10,
        forall|k: int| 0 <= k < cycles@.len() ==> (#[trigger] cycles@[k].ends_at)@.len() >= 10,
    ensures
        cycles@.len() == 0 ==> r@ == "No cycles found.\n"@,
        cycles@.len() > 0 ==> r@ == cycle_lines(cycles@, color),
{
    if cycles.len() == 0 {
        return String::from_str("No cycles found.\n");
    }
    let mut out = String::new();
    let mut i: usize = 0;
    while i < cycles.len()
        invariant
            i <= cycles@.len(),
            forall|k: int|
                0 <= k < cycles@.len() ==> (#[trigger] cycles@[k].starts_at)@.len() >= 10,
            forall|k: int| 0 <= k < cycles@.len() ==> (#[trigger] cycles@[k].ends_at)@.len() >= 10,
            out@ == cycle_lines(cycles@.subrange(0, i as int), color),
        decreases cycles@.len() - i,
    {
        out.append("Cycle ");
        let num = crate::text::i64_to_string(cycles[i].number as i64);
        push_cyan_bold(&mut out, num.as_str(), color);
        out.append(" ");
        if let Some(n) = &cycles[i].name {
            out.append(n.as_str());
        }
        out.append(" ");
        let period = period_string(cycles[i].starts_at.as_str(), cycles[i].ends_at.as_str());
        push_dimmed(&mut out, period.as_str(), color);
        out.append(" ");
        let mut pct = crate::text::u64_to_string(cycles[i].progress_percent as u64);
        pct.append("%");
        push_dimmed(&mut out, pct.as_str(), color);
        out.append("\n");
        proof {
            let t = cycles@.subrange(0, i + 1);
            assert(t.subrange(0, t.len() - 1) =~= cycles@.subrange(0, i as int));
            assert(out@ =~= cycle_lines(cycles@.subrange(0, i + 1), color));
        }
        i = i + 1;
    }
    proof {
        assert(cycles@.subrange(0, cycles@.len() as int) =~= cycles@);
    }
    out
}

/// The text of the cycle detail view.
pub open spec fn cycle_detail_text(c: CycleDetail, color: bool) -> Seq<char> {
    "Cycle "@ + cyan_bold_text(int_str(c.number as int), color) + " "@ + bold_text(
        match c.name {
            Some(n) => n@,
            None => Seq::empty(),
        },
        color,
    ) + "\n\n"@ + kv_line("Period"@, period_text(c.starts_at@, c.ends_at@), color) + kv_line(
        "Progress"@,
        dec_str(c.progress_percent as nat) + "%"@,
        color,
    ) + trailing_block(c.description)
}

/// Renders the cycle detail view.
pub fn render_cycle_detail(c: &CycleDetail, color: bool) -> (r: String)
    requires
        c.starts_at@.len() >= 10,
        c.ends_at@.len() >= 10,
    ensures
        r@ == cycle_detail_text(*c, color),
{
    let mut out = String::new();
    out.append("Cycle ");
    let num = crate::text::i64_to_string(c.number as i64);
    push_cyan_bold(&mut out, num.as_str(), color);
    out.append(" ");
    match &c.name {
        Some(n) => push_bold(&mut out, n.as_str(), color),
        None => {
            proof {
                reveal_strlit("");
                assert(""@ =~= Seq::<char>::empty());
            }
            push_bold(&mut out, "", color);
        },
    }
    out.append("\n\n");
    let period = period_string(c.starts_at.as_str(), c.ends_at.as_str());
    push_kv_line(&mut out, "Period", period.as_str(), color);
    let mut pct = crate::text::u64_to_string(c.progress_percent as u64);
    pct.append("%");
    push_kv_line(&mut out, "Progress", pct.as_str(), color);
    push_trailing_block(&mut out, &c.description);
    assert(out@ =~= cycle_detail_text(*c, color));
    out
}

/// One line of the document listing.
pub open spec fn document_line(d: Document, color: bool) -> Seq<char> {
    bold_text(d.title@, color) + " "@ + dim_text(date_part(d.updated_at@), color) + "\n"@
}

/// The lines of the document listing.
pub open spec fn document_lines(docs: Seq<Document>, color: bool) -> Seq<char>
    decreases docs.len(),
{
    if docs.len() == 0 {
        Seq::empty()
    } else {
        document_lines(docs.subrange(0, docs.len() - 1), color) + document_line(
            docs[docs.len() - 1],
            color,
        )
    }
}

/// Renders the document listing: one line per document with its last-update
/// date, or a note that none were found.
pub fn render_documents(docs: &Vec<Document>, color: bool) -> (r: String)
    requires
        forall|k: int| 0 <= k < docs@.len() ==> (#[trigger] docs@[k].updated_at)@.len() >= 10,
    ensures
        docs@.len() == 0 ==> r@ == "No documents found.\n"@,
        docs@.len() > 0 ==> r@ == document_lines(docs@, color),
{
    if docs.len() == 0 {
        return String::from_str("No documents found.\n");
    }
    let mut out = String::new();
    let mut i: usize = 0;
    while i < docs.len()
        invariant
            i <= docs@.len(),
            forall|k: int| 0 <= k < docs@.len() ==> (#[trigger] docs@[k].updated_at)@.len() >= 10,
            out@ == document_lines(docs@.subrange(0, i as int), color),
        decreases docs@.len() - i,
    {
        push_bold(&mut out, docs[i].title.as_str(), color);
        out.append(" ");
        let dp = docs[i].updated_at.as_str().substring_char(0, 10);
        push_dimmed(&mut out, dp, color);
        out.append("\n");
        proof {
            let t = docs@.subrange(0, i + 1);
            assert(t.subrange(0, t.len() - 1) =~= docs@.subrange(0, i as int));
            assert(out@ =~= document_lines(docs@.subrange(0, i + 1), color));
        }
        i = i + 1;
    }
    proof {
        assert(docs@.subrange(0, docs@.len() as int) =~= docs@);
    }
    out
}

/// The text of the document detail view.
pub open spec fn document_detail_text(d: DocumentDetail, color: bool) -> Seq<char> {
    bold_text(d.title@, color) + "\n\n"@ + kv_line("Created"@, date_part(d.created_at@), color)
        + kv_line("Updated"@, date_part(d.updated_at@), color) + trailing_block(d.content)
}

/// Renders the document detail view.
pub fn render_document_detail(d: &DocumentDetail, color: bool) -> (r: String)
    requires
        d.created_at@.len() >= 10,
        d.updated_at@.len() >= 10,
    ensures
        r@ == document_detail_text(*d, color),
{
    let mut out = String::new();
    push_bold(&mut out, d.title.as_str(), color);
    out.append("\n\n");
    let cp = d.created_at.as_str().substring_char(0, 10);
    push_kv_line(&mut out, "Created", cp, color);
    let up = d.updated_at.as_str().substring_char(0, 10);
    push_kv_line(&mut out, "Updated", up, color);
    push_trailing_block(&mut out, &d.content);
    assert(out@ =~= document_detail_text(*d, color));
    out
}

/// One entry of the comment listing: the author (or a dash), the date, then
/// the body on its own lines.
pub open spec fn comment_entry(c: Comment, color: bool) -> Seq<char> {
    bold_text(
        match c.user {
            Some(u) => u.name@,
            None => "\u{2014}"@,
        },
        color,
    ) + " "@ + dim_text(date_part(c.created_at@), color) + "\n"@ + c.body@ + "\n"@
}

/// The entries of the comment listing.
pub open spec fn comment_entries(comments: Seq<Comment>, color: bool) -> Seq<char>
    decreases comments.len(),
{
    if comments.len() == 0 {
        Seq::empty()
    } else {
        comment_entries(comments.subrange(0, comments.len() - 1), color) + comment_entry(
            comments[comments.len() - 1],
            color,
        )
    }
}

/// Renders the comment listing: author, date and body for each comment, or
/// a note that none were found.
pub fn render_comments(comments: &Vec<Comment>, color: bool) -> (r: String)
    requires
        forall|k: int|
            0 <= k < comments@.len() ==> (#[trigger] comments@[k].created_at)@.len() >= 10,
    ensures
        comments@.len() == 0 ==> r@ == "No comments found.\n"@,
        comments@.len() > 0 ==> r@ == comment_entries(comments@, color),
{
    if comments.len() == 0 {
        return String::from_str("No comments found.\n");
    }
    let mut out = String::new();
    let mut i: usize = 0;
    while i < comments.len()
        invariant
            i <= comments@.len(),
            forall|k: int|
                0 <= k < comments@.len() ==> (#[trigger] comments@[k].created_at)@.len() >= 10,
            out@ == comment_entries(comments@.subrange(0, i as int), color),
        decreases comments@.len() - i,
    {
        match &comments[i].user {
            Some(u) => push_bold(&mut out, u.name.as_str(), color),
            None => push_bold(&mut out, "\u{2014}", color),
        }
        out.append(" ");
        let dp = comments[i].created_at.as_str().substring_char(0, 10);
        push_dimmed(&mut out, dp, color);
        out.append("\n");
        out.append(comments[i].body.as_str());
        out.append("\n");
        proof {
            let t = comments@.subrange(0, i + 1);
            assert(t.subrange(0, t.len() - 1) =~= comments@.subrange(0, i as int));
            assert(out@ =~= comment_entries(comments@.subrange(0, i + 1), color));
        }
        i = i + 1;
    }
    proof {
        assert(comments@.subrange(0, comments@.len() as int) =~= comments@);
    }
    out
}

/// One line of the search results.
pub open spec fn search_line(s: SearchResult, color: bool) -> Seq<char> {
    cyan_bold_text(s.identifier@, color) + " "@ + s.title@ + " ["@ + (match s.state {
        Some(st) => st.name@,
        None => "\u{2014}"@,
    }) + "]\n"@
}

/// The lines of the search results.
pub open spec fn search_lines(results: Seq<SearchResult>, color: bool) -> Seq<char>
    decreases results.len(),
{
    if results.len() == 0 {
        Seq::empty()
    } else {
        search_lines(results.subrange(0, results.len() - 1), color) + search_line(
            results[results.len() - 1],
            color,
        )
    }
}

/// Renders the search results: one line per hit with its state, or a note
/// that none were found.
pub fn render_search_results(results: &Vec<SearchResult>, color: bool) -> (r: String)
    ensures
        results@.len() == 0 ==> r@ == "No results found.\n"@,
        results@.len() > 0 ==> r@ == search_lines(results@, color),
{
    if results.len() == 0 {
        return String::from_str("No results found.\n");
    }
    let mut out = String::new();
    let mut i: usize = 0;
    while i < results.len()
        invariant
            i <= results@.len(),
            out@ == search_lines(results@.subrange(0, i as int), color),
        decreases results@.len() - i,
    {
        push_cyan_bold(&mut out, results[i].identifier.as_str(), color);
        out.append(" ");
        out.append(results[i].title.as_str());
        out.append(" [");
        match &results[i].state {
            Some(st) => out.append(st.name.as_str()),
            None => out.append("\u{2014}"),
        }
        out.append("]\n");
        proof {
            let t = results@.subrange(0, i + 1);
            assert(t.subrange(0, t.len() - 1) =~= results@.subrange(0, i as int));
            assert(out@ =~= search_lines(results@.subrange(0, i + 1), color));
        }
        i = i + 1;
    }
    proof {
        assert(results@.subrange(0, results@.len() as int) =~= results@);
    }
    out
}

/// The text of the issue detail view.
pub open spec fn issue_detail_text(d: IssueDetail, color: bool) -> Seq<char> {
    cyan_bold_text(d.identifier@, color) + " "@ + bold_text(d.title@, color) + "\n\n"@ + kv_line(
        "Team"@,
        d.team.name@ + " ("@ + d.team.key@ + ")"@,
        color,
    ) + kv_line(
        "State"@,
        match d.state {
            Some(s) => s.name@,
            None => "\u{2014}"@,
        },
        color,
    ) + kv_line(
        "Assignee"@,
        match d.assignee {
            Some(a) => a.name@,
            None => "\u{2014}"@,
        },
        color,
    ) + kv_line("Priority"@, priority_label_text(d.priority as int), color) + kv_line(
        "Created"@,
        date_part(d.created_at@),
        color,
    ) + kv_line("Updated"@, date_part(d.updated_at@), color) + (match d.description {
        Some(t) => if t@.len() > 0 {
            "\n"@ + dim_text("Description:"@, color) + "\n"@ + t@ + "\n"@
        } else {
            Seq::empty()
        },
        None => Seq::empty(),
    })
}

/// Renders the issue detail view.
#[verifier::rlimit(80)]
pub fn render_issue_detail(d: &IssueDetail, color: bool) -> (r: String)
    requires
        d.created_at@.len() >= 10,
        d.updated_at@.len() >= 10,
    ensures
        r@ == issue_detail_text(*d, color),
{
    let mut out = String::new();
    push_cyan_bold(&mut out, d.identifier.as_str(), color);
    out.append(" ");
    push_bold(&mut out, d.title.as_str(), color);
    out.append("\n\n");
    let mut team = d.team.name.clone();
    team.append(" (");
    team.append(d.team.key.as_str());
    team.append(")");
    push_kv_line(&mut out, "Team", team.as_str(), color);
    match &d.state {
        Some(s) => push_kv_line(&mut out, "State", s.name.as_str(), color),
        None => push_kv_line(&mut out, "State", "\u{2014}", color),
    }
    match &d.assignee {
        Some(a) => push_kv_line(&mut out, "Assignee", a.name.as_str(), color),
        None => push_kv_line(&mut out, "Assignee", "\u{2014}", color),
    }
    let pl = priority_label(d.priority);
    push_kv_line(&mut out, "Priority", pl.as_str(), color);
    let cp = d.created_at.as_str().substring_char(0, 10);
    push_kv_line(&mut out, "Created", cp, color);
    let up = d.updated_at.as_str().substring_char(0, 10);
    push_kv_line(&mut out, "Updated", up, color);
    if let Some(t) = &d.description {
        if !t.as_str().is_empty() {
            out.append("\n");
            push_dimmed(&mut out, "Description:", color);
            out.append("\n");
            out.append(t.as_str());
            out.append("\n");
        }
    }
    assert(out@ =~= issue_detail_text(*d, color));
    out
}

/// The header row of the issue table.
pub open spec fn issue_header_row() -> Seq<Seq<char>> {
    seq!["ID"@, "Title"@, "State"@, "Assignee"@, "Priority"@]
}

/// One row of the issue table: identifier, the title cut to 40 characters,
/// state and assignee (or a dash), and the priority label.
pub open spec fn issue_row(i: Issue) -> Seq<Seq<char>> {
    seq![
        i.identifier@,
        truncated(i.title@, 40),
        (match i.state {
            Some(s) => s.name@,
            None => "-"@,
        }),
        (match i.assignee {
            Some(a) => a.name@,
            None => "-"@,
        }),
        priority_label_text(i.priority as int),
    ]
}

/// All rows of the issue table: the header, then one row per issue.
pub open spec fn issue_rows(issues: Seq<Issue>) -> Seq<Seq<Seq<char>>>
    decreases issues.len(),
{
    if issues.len() == 0 {
        seq![issue_header_row()]
    } else {
        issue_rows(issues.subrange(0, issues.len() - 1)).push(issue_row(issues[issues.len() - 1]))
    }
}

/// What tabled renders for given rows of cell texts.
pub uninterp spec fn table_text(rows: Seq<Seq<Seq<char>>>) -> Seq<char>;

/// Relies on tabled's Builder and Table: the rendered table is a function
/// of the cell texts alone.
#[verifier::external_body]
fn render_table(rows: Vec<Vec<String>>) -> (r: String)
    ensures
        r@ == table_text(rows.deep_view()),
{
    tabled::builder::Builder::from(rows).build().to_string()
}

/// Renders the issue listing as a table with a header row, or a note that
/// none were found.
pub fn render_issues(issues: &Vec<Issue>) -> (r: String)
    ensures
        issues@.len() == 0 ==> r@ == "No issues found.\n"@,
        issues@.len() > 0 ==> r@ == table_text(issue_rows(issues@)) + "\n"@,
{
    if issues.len() == 0 {
        return String::from_str("No issues found.\n");
    }
    let mut rows: Vec<Vec<String>> = Vec::new();
    let mut header: Vec<String> = Vec::new();
    header.push(String::from_str("ID"));
    header.push(String::from_str("Title"));
    header.push(String::from_str("State"));
    header.push(String::from_str("Assignee"));
    header.push(String::from_str("Priority"));
    proof {
        assert(header.deep_view() =~= issue_header_row());
    }
    rows.push(header);
    proof {
        assert(rows.deep_view() =~= issue_rows(issues@.subrange(0, 0)));
    }
    let mut i: usize = 0;
    while i < issues.len()
        invariant
            i <= issues@.len(),
            rows.deep_view() == issue_rows(issues@.subrange(0, i as int)),
        decreases issues@.len() - i,
    {
        let mut row: Vec<String> = Vec::new();
        row.push(issues[i].identifier.clone());
        row.push(truncate(issues[i].title.as_str(), 40));
        match &issues[i].state {
            Some(s) => row.push(s.name.clone()),
            None => row.push(String::from_str("-")),
        }
        match &issues[i].assignee {
            Some(a) => row.push(a.name.clone()),
            None => row.push(String::from_str("-")),
        }
        row.push(priority_label(issues[i].priority));
        proof {
            assert(row.deep_view() =~= issue_row(issues@[i as int]));
        }
        let ghost rows_before = rows.deep_view();
        rows.push(row);
        proof {
            assert(rows.deep_view() =~= rows_before.push(issue_row(issues@[i as int])));
            let t = issues@.subrange(0, i + 1);
            assert(t.subrange(0, t.len() - 1) =~= issues@.subrange(0, i as int));
            assert(rows.deep_view() =~= issue_rows(issues@.subrange(0, i + 1)));
        }
        i = i + 1;
    }
    proof {
        assert(issues@.subrange(0, issues@.len() as int) =~= issues@);
    }
    let mut out = render_table(rows);
    out.append("\n");
    out
}

/// Whether some state has the given category type.
pub open spec fn has_type(states: Seq<WorkflowState>, t: Seq<char>) -> bool {
    exists|k: int| 0 <= k < states.len() && (#[trigger] states[k].state_type)@ == t
}

/// The indented name lines of the states of one category, in their given
/// order.
pub open spec fn state_lines(states: Seq<WorkflowState>, t: Seq<char>) -> Seq<char>
    decreases states.len(),
{
    if states.len() == 0 {
        Seq::empty()
    } else {
        state_lines(states.subrange(0, states.len() - 1), t) + (if states[states.len()
            - 1].state_type@ == t {
            "  "@ + states[states.len() - 1].name@ + "\n"@
        } else {
            Seq::empty()
        })
    }
}

/// The block of one category: its bold upper-case label, then the indented
/// names of its states -- or nothing when no state has the category.
pub open spec fn group_text(
    states: Seq<WorkflowState>,
    t: Seq<char>,
    label: Seq<char>,
    color: bool,
) -> Seq<char> {
    if has_type(states, t) {
        bold_text(label, color) + ":\n"@ + state_lines(states, t)
    } else {
        Seq::empty()
    }
}

fn append_group(states: &Vec<WorkflowState>, t: &str, label: &str, color: bool, out: &mut String)
    ensures
        final(out)@ == old(out)@ + group_text(states@, t@, label@, color),
{
    let mut any = false;
    let mut i: usize = 0;
    while i < states.len()
        invariant
            i <= states@.len(),
            any == exists|k: int|
                0 <= k < i && (#[trigger] states@[k].state_type)@ == t@,
        decreases states@.len() - i,
    {
        if crate::text::str_eq(states[i].state_type.as_str(), t) {
            any = true;
        }
        i = i + 1;
    }
    if !any {
        assert(final(out)@ =~= old(out)@ + group_text(states@, t@, label@, color));
        return ;
    }
    push_bold(out, label, color);
    out.append(":\n");
    let ghost base = out@;
    let mut j: usize = 0;
    while j < states.len()
        invariant
            j <= states@.len(),
            out@ == base + state_lines(states@.subrange(0, j as int), t@),
        decreases states@.len() - j,
    {
        if crate::text::str_eq(states[j].state_type.as_str(), t) {
            out.append("  ");
            out.append(states[j].name.as_str());
            out.append("\n");
        }
        proof {
            let w = states@.subrange(0, j + 1);
            assert(w.subrange(0, w.len() - 1) =~= states@.subrange(0, j as int));
            assert(out@ =~= base + state_lines(states@.subrange(0, j + 1), t@));
        }
        j = j + 1;
    }
    proof {
        assert(states@.subrange(0, states@.len() as int) =~= states@);
        assert(final(out)@ =~= old(out)@ + group_text(states@, t@, label@, color));
    }
}

/// The full workflow view: the five fixed categories in order, each with the
/// states of that category; a state of any other type is left out.
pub open spec fn workflow_text(states: Seq<WorkflowState>, color: bool) -> Seq<char> {
    group_text(states, "backlog"@, "BACKLOG"@, color) + group_text(
        states,
        "unstarted"@,
        "UNSTARTED"@,
        color,
    ) + group_text(states, "started"@, "STARTED"@, color) + group_text(
        states,
        "completed"@,
        "COMPLETED"@,
        color,
    ) + group_text(states, "canceled"@, "CANCELED"@, color)
}

/// Renders the workflow states grouped into the five fixed categories, or a
/// note that none were found.
pub fn render_workflow_states(states: &Vec<WorkflowState>, color: bool) -> (r: String)
    ensures
        states@.len() == 0 ==> r@ == "No workflow states found.\n"@,
        states@.len() > 0 ==> r@ == workflow_text(states@, color),
{
    if states.len() == 0 {
        return String::from_str("No workflow states found.\n");
    }
    let mut out = String::new();
    append_group(states, "backlog", "BACKLOG", color, &mut out);
    append_group(states, "unstarted", "UNSTARTED", color, &mut out);
    append_group(states, "started", "STARTED", color, &mut out);
    append_group(states, "completed", "COMPLETED", color, &mut out);
    append_group(states, "canceled", "CANCELED", color, &mut out);
    assert(out@ =~= workflow_text(states@, color));
    out
}

} // verus!
