use vstd::prelude::*;
use vstd::string::*;
use crate::text::is_blank;

verus! {

/// Which template the history extraction hands to the version-control log
/// command: one summary line per commit, or each commit's full description.
#[derive(Clone, Copy, PartialEq, Eq, Structural, Debug)]
pub enum LogFormat {
    OneLine,
    Full,
}

/// The log template that emits the first line of each commit description.
pub open spec fn one_line_template() -> Seq<char> {
    "\"```\\n\" ++ if(description, description.first_line(), '') ++ \"\\n```\\n\\n---\\n\\n\""@
}

/// The log template that emits each commit's full description.
pub open spec fn full_template() -> Seq<char> {
    "\"```\\n\" ++ if(description, description, '') ++ \"```\\n\\n---\\n\\n\""@
}

/// The template text a given format selects.
pub open spec fn template_for(format: LogFormat) -> Seq<char> {
    match format {
        LogFormat::OneLine => one_line_template(),
        LogFormat::Full => full_template(),
    }
}

/// Selects the log template for a format.
pub fn log_template(format: LogFormat) -> (r: &'static str)
    ensures
        r@ == template_for(format),
{
    match format {
        LogFormat::OneLine => "\"```\\n\" ++ if(description, description.first_line(), '') ++ \"\\n```\\n\\n---\\n\\n\"",
        LogFormat::Full => "\"```\\n\" ++ if(description, description, '') ++ \"```\\n\\n---\\n\\n\"",
    }
}

/// The revision-range expression handed to the version-control log command:
/// the two endpoints joined by the range operator.
pub open spec fn range_expr(from: Seq<char>, to: Seq<char>) -> Seq<char> {
    from + ".."@ + to
}

/// Joins the two endpoints of the revision range into one expression. The
/// endpoints are passed on verbatim: whether they mean anything is the
/// version-control system's concern.
pub fn resolve_range(from: &String, to: &String) -> (r: String)
    ensures
        r@ == range_expr(from@, to@),
{
    let r = from.clone();
    let r = r.concat("..");
    let r = r.concat(to.as_str());
    r
}

/// The range expression the log command receives: a single combined revision
/// expression when one was given, else the two endpoints joined. Either way
/// it goes to the version-control system verbatim.
pub open spec fn resolved_range(
    revision: Option<Seq<char>>,
    from: Seq<char>,
    to: Seq<char>,
) -> Seq<char> {
    match revision {
        Some(r) => r,
        None => range_expr(from, to),
    }
}

/// Resolves the revision range from either input mode: a combined expression
/// passed through untouched, or explicit endpoints joined into a range.
pub fn resolve_revset(revision: &Option<String>, from: &String, to: &String) -> (r: String)
    ensures
        r@ == resolved_range(revision.deep_view(), from@, to@),
{
    match revision {
        Some(r) => r.clone(),
        None => resolve_range(from, to),
    }
}

/// The fixed rules that precede the commit text in the prompt.
pub open spec fn prompt_start() -> Seq<char> {
    "Rules for branch names:\n\n- A good branch name uses at least 3 and no more than 5 lowercase words separated by hyphens.\n- A good branch name is always derived from the summary of changes in the log.\n- A good branch name incorporates the sentiment of the majority of commits in the log.\n- A bad branch name has too little information, like `ab-1234`.\n- A bad branch name would only use the date.\n- Empty commits are not relevant.\n\nCommits are in blocks of markdown, separated by `---`. The commits that make up this branch are:\n"@
}

/// The fixed closing instruction that follows the commit text in the prompt.
pub open spec fn prompt_end() -> Seq<char> {
    "\n\nThe best descriptive branch name for these commits (*not* a pull request description, just a branch name) for a Git branch containing these commits is:\n"@
}

/// The complete prompt: the rules, the commit text, and the closing
/// instruction, in that order, separated by blank lines.
pub open spec fn prompt_text(commits: Seq<char>) -> Seq<char> {
    prompt_start() + "\n\n"@ + commits + "\n\n"@ + prompt_end()
}

/// Builds the prompt around the extracted commit text.
pub fn build_prompt(commits: &str) -> (r: String)
    ensures
        r@ == prompt_text(commits@),
{
    let r = String::from_str(
        "Rules for branch names:\n\n- A good branch name uses at least 3 and no more than 5 lowercase words separated by hyphens.\n- A good branch name is always derived from the summary of changes in the log.\n- A good branch name incorporates the sentiment of the majority of commits in the log.\n- A bad branch name has too little information, like `ab-1234`.\n- A bad branch name would only use the date.\n- Empty commits are not relevant.\n\nCommits are in blocks of markdown, separated by `---`. The commits that make up this branch are:\n",
    );
    let r = r.concat("\n\n");
    let r = r.concat(commits);
    let r = r.concat("\n\n");
    let r = r.concat(
        "\n\nThe best descriptive branch name for these commits (*not* a pull request description, just a branch name) for a Git branch containing these commits is:\n",
    );
    r
}

/// The argument vector of the log invocation that materialises the commit
/// history for a range under a template, with graph rendering off.
pub open spec fn log_args_ok(a: Seq<String>, template: Seq<char>, range: Seq<char>) -> bool {
    &&& a.len() == 6
    &&& a[0]@ == "log"@
    &&& a[1]@ == "-T"@
    &&& a[2]@ == template
    &&& a[3]@ == "-r"@
    &&& a[4]@ == range
    &&& a[5]@ == "--no-graph"@
}

/// Builds the argument vector for the history extraction.
pub fn log_command_args(template: &str, range: &String) -> (v: Vec<String>)
    ensures
        log_args_ok(v@, template@, range@),
{
    let mut v: Vec<String> = Vec::new();
    v.push(String::from_str("log"));
    v.push(String::from_str("-T"));
    v.push(String::from_str(template));
    v.push(String::from_str("-r"));
    v.push(range.clone());
    v.push(String::from_str("--no-graph"));
    v
}

/// The argument vector that creates a bookmark with the published name at the
/// target revision.
pub open spec fn create_args_ok(a: Seq<String>, name: Seq<char>, change: Seq<char>) -> bool {
    &&& a.len() == 5
    &&& a[0]@ == "bookmark"@
    &&& a[1]@ == "create"@
    &&& a[2]@ == name
    &&& a[3]@ == "--revision"@
    &&& a[4]@ == change
}

/// Builds the argument vector for the bookmark creation.
pub fn create_command_args(name: &String, change: &String) -> (v: Vec<String>)
    ensures
        create_args_ok(v@, name@, change@),
{
    let mut v: Vec<String> = Vec::new();
    v.push(String::from_str("bookmark"));
    v.push(String::from_str("create"));
    v.push(name.clone());
    v.push(String::from_str("--revision"));
    v.push(change.clone());
    v
}

/// The argument vector that pushes the created bookmark, allowing a new
/// remote ref.
pub open spec fn push_args_ok(a: Seq<String>, name: Seq<char>) -> bool {
    &&& a.len() == 5
    &&& a[0]@ == "git"@
    &&& a[1]@ == "push"@
    &&& a[2]@ == "--bookmark"@
    &&& a[3]@ == name
    &&& a[4]@ == "--allow-new"@
}

/// Builds the argument vector for the bookmark push.
pub fn push_command_args(name: &String) -> (v: Vec<String>)
    ensures
        push_args_ok(v@, name@),
{
    let mut v: Vec<String> = Vec::new();
    v.push(String::from_str("git"));
    v.push(String::from_str("push"));
    v.push(String::from_str("--bookmark"));
    v.push(name.clone());
    v.push(String::from_str("--allow-new"));
    v
}

/// What one external command invocation printed.
pub struct CommandOutput {
    pub stdout: String,
    pub stderr: String,
}

impl CommandOutput {
    /// The command's standard output is worth relaying only when it is not
    /// blank.
    pub fn relay_stdout(&self) -> (b: bool)
        ensures
            b == !is_blank(self.stdout@),
    {
        !crate::text::blank(self.stdout.as_str())
    }

    /// The command's standard error is worth relaying only when it is not
    /// blank.
    pub fn relay_stderr(&self) -> (b: bool)
        ensures
            b == !is_blank(self.stderr@),
    {
        !crate::text::blank(self.stderr.as_str())
    }
}

/// The exit code the tool adopts when an external command fails: the
/// command's own exit code when it has one, else one.
pub open spec fn spec_failure_exit_code(code: Option<i32>) -> i32 {
    match code {
        Some(c) => c,
        None => 1,
    }
}

/// Picks the exit code after a failed external command.
pub fn failure_exit_code(code: Option<i32>) -> (r: i32)
    ensures
        r == spec_failure_exit_code(code),
{
    match code {
        Some(c) => c,
        None => 1,
    }
}

} // verus!
