//! The batch-job menu: which jobs may run, how the menu reads, and what a
//! line typed by the user selects.
//!
//! Reading the job list file, printing and reading the terminal are left to
//! the caller, which loops: print [`menu_lines`], read a line, act on
//! [`interpret_selection`] (on `Retry`, print [`invalid_input_message`] and
//! ask again).
use vstd::prelude::*;

use vstd::string::StringExecFns;

use crate::text::{
    is_white_space, lemma_decimal_reads_back, lemma_trim_ignores_surrounding_white,
    decimal, parse_trimmed_usize, push_decimal, spec_parse_usize, trim};

verus! {

/// A single batch job entry declared in the job list file.
#[derive(Clone, Debug, PartialEq, Eq)]
pub struct CliInfo {
    /// Unique identifier for the batch job.
    pub cli_name: String,
    /// Whether this job is shown in the menu and allowed to run.
    pub enabled: bool,
    /// Path of the dictionary the job works on.
    pub dictionary_path: String,
}

/// The full contents of the job list file.
#[derive(Clone, Debug, PartialEq, Eq)]
pub struct CliInfos {
    /// All declared batch job entries.
    pub cli_info: Vec<CliInfo>,
}

/// Why no job can be offered.
#[derive(Clone, Copy, Debug, PartialEq, Eq, Structural)]
pub enum CliError {
    /// No entry of the job list has `enabled = true`.
    NoRunnableJobs,
}

impl CliError {
    /// The message reported for this error.
    pub open spec fn spec_message(self) -> Seq<char> {
        match self {
            CliError::NoRunnableJobs => "[CliServiceImpl::select_batch_job] No runnable batch jobs found (no entries with enabled = true)"@,
        }
    }

    /// The message reported for this error.
    pub fn message(&self) -> (res: String)
        ensures
            res@ == self.spec_message(),
    {
        match self {
            CliError::NoRunnableJobs => String::from_str(
                "[CliServiceImpl::select_batch_job] No runnable batch jobs found (no entries with enabled = true)",
            ),
        }
    }
}

/// What a line typed at the menu asks for.
#[derive(Clone, Copy, Debug, PartialEq, Eq, Structural)]
pub enum MenuChoice {
    /// The last menu number: leave without running a job.
    Exit,
    /// Run the job at this index of the enabled jobs.
    Run(usize),
    /// Anything else: tell the user and ask again.
    Retry,
}

/// The enabled entries of `s`, in their order.
pub open spec fn enabled_jobs(s: Seq<CliInfo>) -> Seq<CliInfo>
    decreases s.len(),
{
    if s.len() == 0 {
        Seq::empty()
    } else {
        let rest = enabled_jobs(s.drop_last());
        if s.last().enabled {
            rest.push(s.last())
        } else {
            rest
        }
    }
}

/// The menu's first line.
pub open spec fn menu_title() -> Seq<char> {
    "\n=== Dictionary Link Batch ==="@
}

/// A menu line: two spaces, the number, a dot, a space and the label.
pub open spec fn menu_entry(number: nat, label: Seq<char>) -> Seq<char> {
    seq![' ', ' '] + decimal(number) + seq!['.', ' '] + label
}

/// The label of the last menu entry.
pub open spec fn exit_label() -> Seq<char> {
    "Exit"@
}

/// The lines of the menu for `jobs`: the title, the jobs numbered from 1,
/// and Exit numbered one past the last job.
pub open spec fn menu_text(jobs: Seq<CliInfo>) -> Seq<Seq<char>> {
    seq![menu_title()] + Seq::new(jobs.len(), |i: int| menu_entry((i + 1) as nat, jobs[i].cli_name@))
        + seq![menu_entry(jobs.len() + 1, exit_label())]
}

/// The message shown after an input that selects nothing.
pub open spec fn invalid_input_text(n_jobs: nat) -> Seq<char> {
    "Invalid input. Please enter a number between 1 and "@ + decimal(n_jobs + 1) + "."@
}

/// What `input` selects in a menu of `n_jobs` jobs: the trimmed input read
/// as a `usize`; one past the last job exits, 1 to `n_jobs` run that job,
/// anything else asks again.
pub open spec fn spec_choice(n_jobs: nat, input: Seq<char>) -> MenuChoice {
    match spec_parse_usize(trim(input)) {
        Some(n) => if n == n_jobs + 1 {
            MenuChoice::Exit
        } else if 1 <= n && n <= n_jobs {
            MenuChoice::Run((n - 1) as usize)
        } else {
            MenuChoice::Retry
        },
        None => MenuChoice::Retry,
    }
}

/// The runnable jobs are exactly the enabled entries of the list.
pub proof fn lemma_enabled_jobs_members(s: Seq<CliInfo>)
    ensures
        forall|x: CliInfo| #[trigger] enabled_jobs(s).contains(x) <==> (s.contains(x) && x.enabled),
        enabled_jobs(s).len() <= s.len(),
    decreases s.len(),
{
    if s.len() > 0 {
        let init = s.drop_last();
        lemma_enabled_jobs_members(init);
        assert(s =~= init.push(s.last()));
        assert forall|x: CliInfo| #[trigger] enabled_jobs(s).contains(x) <==> (s.contains(x)
            && x.enabled) by {
            if s.contains(x) && x != s.last() {
                let k = choose|k: int| 0 <= k < s.len() && s[k] == x;
                assert(init[k] == x);
            }
            if init.contains(x) {
                let k = choose|k: int| 0 <= k < init.len() && init[k] == x;
                assert(s[k] == x);
            }
            if s.last().enabled {
                let r = enabled_jobs(init);
                assert(r.push(s.last())[r.len() as int] == s.last());
                if r.contains(x) {
                    let k = choose|k: int| 0 <= k < r.len() && r[k] == x;
                    assert(r.push(s.last())[k] == x);
                }
                if r.push(s.last()).contains(x) && x != s.last() {
                    let k = choose|k: int| 0 <= k < r.len() + 1 && r.push(s.last())[k] == x;
                    assert(r[k] == x);
                }
            }
        }
    }
}

/// Typing the number shown beside a job selects that job: line `i + 1` of
/// the menu shows job `i` under the number `i + 1`, and that number, read as
/// input, runs job `i`.
pub proof fn lemma_menu_number_selects_job(jobs: Seq<CliInfo>, i: int)
    requires
        0 <= i < jobs.len(),
        jobs.len() < usize::MAX,
    ensures
        menu_text(jobs)[i + 1] == menu_entry((i + 1) as nat, jobs[i].cli_name@),
        spec_choice(jobs.len(), decimal((i + 1) as nat)) == MenuChoice::Run(i as usize),
{
    lemma_decimal_reads_back((i + 1) as nat);
}

/// Typing the number shown beside Exit exits: the menu's last line shows
/// Exit under the number one past the last job, and that number exits.
pub proof fn lemma_menu_exit_number(jobs: Seq<CliInfo>)
    requires
        jobs.len() < usize::MAX,
    ensures
        menu_text(jobs).len() == jobs.len() + 2,
        menu_text(jobs).last() == menu_entry(jobs.len() + 1, exit_label()),
        spec_choice(jobs.len(), decimal(jobs.len() + 1)) == MenuChoice::Exit,
{
    lemma_decimal_reads_back(jobs.len() + 1);
}

/// White space around the typed line (such as the newline that ends it)
/// never changes what it selects.
pub proof fn lemma_choice_ignores_surrounding_white(
    n_jobs: nat,
    a: Seq<char>,
    x: Seq<char>,
    b: Seq<char>,
)
    requires
        forall|i: int| 0 <= i < a.len() ==> #[trigger] is_white_space(a[i]),
        forall|i: int| 0 <= i < b.len() ==> #[trigger] is_white_space(b[i]),
    ensures
        spec_choice(n_jobs, a + x + b) == spec_choice(n_jobs, x),
{
    lemma_trim_ignores_surrounding_white(a, x, b);
}

/// A selected job is always one of the menu's jobs.
pub proof fn lemma_choice_in_range(n_jobs: nat, input: Seq<char>)
    ensures
        spec_choice(n_jobs, input) matches MenuChoice::Run(i) ==> i < n_jobs,
{
}

/// Keeping the enabled entries respects the list's order: the runnable jobs
/// of two lists joined are those of the first followed by those of the
/// second, and a single entry is kept exactly when it is enabled.
pub proof fn lemma_enabled_jobs_order(s: Seq<CliInfo>, t: Seq<CliInfo>)
    ensures
        enabled_jobs(s + t) == enabled_jobs(s) + enabled_jobs(t),
        forall|x: CliInfo| #[trigger] enabled_jobs(seq![x]) == (if x.enabled {
            seq![x]
        } else {
            Seq::<CliInfo>::empty()
        }),
    decreases t.len(),
{
    assert forall|x: CliInfo| #[trigger] enabled_jobs(seq![x]) == (if x.enabled {
        seq![x]
    } else {
        Seq::<CliInfo>::empty()
    }) by {
        assert(seq![x].drop_last() =~= Seq::<CliInfo>::empty());
        assert(enabled_jobs(Seq::<CliInfo>::empty()) == Seq::<CliInfo>::empty());
        assert(seq![x].last() == x);
        assert(Seq::<CliInfo>::empty().push(x) =~= seq![x]);
    }
    if t.len() == 0 {
        assert(s + t =~= s);
        assert(enabled_jobs(s) + enabled_jobs(t) =~= enabled_jobs(s));
    } else {
        lemma_enabled_jobs_order(s, t.drop_last());
        assert((s + t).drop_last() =~= s + t.drop_last());
        assert((s + t).last() == t.last());
        if t.last().enabled {
            assert(enabled_jobs(s) + enabled_jobs(t.drop_last()).push(t.last()) =~= (enabled_jobs(s)
                + enabled_jobs(t.drop_last())).push(t.last()));
        }
    }
}

/// Every job line of the menu is two spaces, the job's number (its position
/// from 1) in decimal, a dot and a space, then the job's full name; the last
/// line offers Exit under the next number, and the first is the title.
pub proof fn lemma_menu_line_format(jobs: Seq<CliInfo>)
    ensures
        menu_text(jobs).len() == jobs.len() + 2,
        menu_text(jobs)[0] == "\n=== Dictionary Link Batch ==="@,
        forall|i: int|
            0 <= i < jobs.len() ==> #[trigger] menu_text(jobs)[i + 1] == "  "@ + decimal(
                (i + 1) as nat,
            ) + ". "@ + jobs[i].cli_name@,
        menu_text(jobs)[jobs.len() + 1int] == "  "@ + decimal(jobs.len() + 1) + ". Exit"@,
{
    reveal_strlit("  ");
    reveal_strlit(". ");
    reveal_strlit(". Exit");
    reveal_strlit("Exit");
    assert("  "@ =~= seq![' ', ' ']);
    assert(". "@ =~= seq!['.', ' ']);
    assert(". Exit"@ =~= seq!['.', ' '] + "Exit"@);
    assert forall|i: int| 0 <= i < jobs.len() implies #[trigger] menu_text(jobs)[i + 1] == "  "@
        + decimal((i + 1) as nat) + ". "@ + jobs[i].cli_name@ by {
        assert(menu_text(jobs)[i + 1] == menu_entry((i + 1) as nat, jobs[i].cli_name@));
    }
    let n = jobs.len();
    assert(menu_text(jobs)[n + 1int] == menu_entry(n + 1, exit_label()));
    assert(menu_entry(n + 1, exit_label()) =~= "  "@ + decimal(n + 1) + ". Exit"@);
}

/// What a typed line selects, in terms of the number it reads as (after
/// trimming): Exit only for the number one past the last job, job `i` only
/// for the number `i + 1` with `i` a job of the menu, and asking again
/// exactly when the line is not a number from 1 to `n_jobs + 1`.
pub proof fn lemma_choice_meaning(n_jobs: nat, input: Seq<char>)
    ensures
        spec_choice(n_jobs, input) == MenuChoice::Exit <==> spec_parse_usize(trim(input)) == Some(
            (n_jobs + 1) as usize,
        ) && n_jobs + 1 <= usize::MAX,
        spec_choice(n_jobs, input) matches MenuChoice::Run(i) ==> i < n_jobs && spec_parse_usize(
            trim(input),
        ) == Some((i + 1) as usize),
        spec_parse_usize(trim(input)) matches Some(k) ==> (1 <= k <= n_jobs ==> spec_choice(
            n_jobs,
            input,
        ) == MenuChoice::Run((k - 1) as usize)),
        spec_choice(n_jobs, input) == MenuChoice::Retry <==> !(spec_parse_usize(trim(input)) matches Some(
            k,
        ) && 1 <= k <= n_jobs + 1),
{
}

/// The text of each string.
pub open spec fn texts(lines: Seq<String>) -> Seq<Seq<char>> {
    lines.map_values(|s: String| s@)
}

/// The enabled jobs of the list, in order; an error when there are none.
pub fn runnable_jobs(infos: CliInfos) -> (res: Result<Vec<CliInfo>, CliError>)
    ensures
        match res {
            Ok(jobs) => jobs@ == enabled_jobs(infos.cli_info@) && jobs@.len() > 0,
            Err(e) => e == CliError::NoRunnableJobs && enabled_jobs(infos.cli_info@).len() == 0,
        },
{
    let ghost all = infos.cli_info@;
    let list = infos.cli_info;
    let mut out: Vec<CliInfo> = Vec::new();
    for info in it: list.into_iter()
        invariant
            it.seq() == all,
            out@ == enabled_jobs(all.take(it.index() as int)),
    {
        let ghost k = it.index() as int;
        assert(all.take(k + 1).drop_last() =~= all.take(k));
        assert(all.take(k + 1).last() == info);
        if info.enabled {
            out.push(info);
        }
    }
    assert(all.take(all.len() as int) =~= all);
    if out.len() == 0 {
        Err(CliError::NoRunnableJobs)
    } else {
        Ok(out)
    }
}

/// One menu line: `"  {number}. {label}"`.
fn entry_line(number: u64, label: &str) -> (res: String)
    ensures
        res@ == menu_entry(number as nat, label@),
{
    let mut line = String::from_str("  ");
    proof {
        reveal_strlit("  ");
    }
    push_decimal(&mut line, number);
    line.append(". ");
    proof {
        reveal_strlit(". ");
    }
    line.append(label);
    assert(line@ =~= menu_entry(number as nat, label@));
    line
}

/// The lines of the menu for `jobs`, to be printed one per line.
pub fn menu_lines(jobs: &Vec<CliInfo>) -> (res: Vec<String>)
    requires
        jobs@.len() < usize::MAX,
    ensures
        texts(res@) == menu_text(jobs@),
{
    let mut lines: Vec<String> = Vec::new();
    lines.push(String::from_str("\n=== Dictionary Link Batch ==="));
    let n = jobs.len();
    let mut i: usize = 0;
    while i < n
        invariant
            i <= n,
            n == jobs@.len(),
            n < usize::MAX,
            texts(lines@) == seq![menu_title()] + Seq::new(
                i as nat,
                |k: int| menu_entry((k + 1) as nat, jobs@[k].cli_name@),
            ),
        decreases n - i,
    {
        let line = entry_line((i + 1) as u64, jobs[i].cli_name.as_str());
        let ghost before = lines@;
        lines.push(line);
        assert(texts(lines@) =~= texts(before).push(line@));
        i = i + 1;
        assert(texts(lines@) =~= seq![menu_title()] + Seq::new(
            i as nat,
            |k: int| menu_entry((k + 1) as nat, jobs@[k].cli_name@),
        ));
    }
    let last = entry_line((n + 1) as u64, "Exit");
    let ghost before = lines@;
    lines.push(last);
    assert(texts(lines@) =~= texts(before).push(last@));
    assert(texts(lines@) =~= menu_text(jobs@));
    lines
}

/// The message shown after an input that selects nothing:
/// `"Invalid input. Please enter a number between 1 and {n_jobs + 1}."`.
pub fn invalid_input_message(n_jobs: usize) -> (res: String)
    requires
        n_jobs < usize::MAX,
    ensures
        res@ == invalid_input_text(n_jobs as nat),
{
    let mut msg = String::from_str("Invalid input. Please enter a number between 1 and ");
    push_decimal(&mut msg, (n_jobs + 1) as u64);
    msg.append(".");
    msg
}

/// What the line `input` selects in a menu of `n_jobs` jobs.
pub fn interpret_selection(n_jobs: usize, input: &str) -> (res: MenuChoice)
    requires
        n_jobs < usize::MAX,
    ensures
        res == spec_choice(n_jobs as nat, input@),
{
    match parse_trimmed_usize(input) {
        Some(n) => if n == n_jobs + 1 {
            MenuChoice::Exit
        } else if 1 <= n && n <= n_jobs {
            MenuChoice::Run(n - 1)
        } else {
            MenuChoice::Retry
        },
        None => MenuChoice::Retry,
    }
}

/// The job at `index`, taken out of the list.
pub fn take_job(jobs: Vec<CliInfo>, index: usize) -> (res: CliInfo)
    requires
        index < jobs@.len(),
    ensures
        res == jobs@[index as int],
{
    let mut jobs = jobs;
    jobs.swap_remove(index)
}

/// Terminal-based job menu over the job list file at `toml_path`.
#[derive(Debug)]
pub struct CliServiceImpl {
    /// Path to the TOML file that lists the batch jobs.
    toml_path: String,
}

impl CliServiceImpl {
    /// A menu over the job list file at `toml_path`.
    pub fn new(toml_path: String) -> (res: CliServiceImpl)
        ensures
            res.spec_toml_path() == toml_path@,
    {
        CliServiceImpl { toml_path }
    }

    /// The path of the job list file.
    pub closed spec fn spec_toml_path(&self) -> Seq<char> {
        self.toml_path@
    }

    /// The path of the job list file.
    pub fn toml_path(&self) -> (res: &String)
        ensures
            res@ == self.spec_toml_path(),
    {
        &self.toml_path
    }
}

} // verus!
