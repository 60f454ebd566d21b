use vstd::prelude::*;
use vstd::string::*;
use crate::backend::{json_string_value, parse_json_string};
use crate::command::{
    create_args_ok, create_command_args, log_args_ok, log_command_args, log_template,
    push_args_ok, push_command_args, resolved_range, resolve_revset, spec_failure_exit_code,
    failure_exit_code, template_for, prompt_text, build_prompt, LogFormat,
};
use crate::name::{
    apply_prefix, name_shape_check, name_shape_ok, prefixed, strict_name, strict_name_check,
};
use crate::text::{blank, is_blank, sanitize, sanitized};

verus! {

/// Everything one run of the pipeline is configured with. Sampling controls
/// for the backend (temperature and friends) are not here: they are opaque to
/// the pipeline's decisions and travel with the backend call itself.
pub struct Config {
    /// A combined revision-range expression; when present it overrides the
    /// two endpoints below.
    pub revision: Option<String>,
    /// Lower endpoint of the revision range.
    pub from: String,
    /// Upper endpoint of the revision range; also where the bookmark goes.
    pub change: String,
    /// Which log template extracts the history.
    pub log_format: LogFormat,
    /// Which model the backend is asked to run.
    pub model: String,
    /// Optional prefix for the published name.
    pub prefix: Option<String>,
    /// Print the would-be commands instead of running them.
    pub dry_run: bool,
    /// Whether the backend was asked for a schema-constrained JSON string
    /// (decode it) rather than free text (sanitize it).
    pub structured: bool,
    /// Whether the name must match the strict branch-name shape.
    pub strict: bool,
}

/// How a run ends.
#[derive(Clone, Copy, PartialEq, Eq, Structural, Debug)]
pub enum Outcome {
    /// The bookmark was created and pushed.
    Published,
    /// Dry-run mode: the would-be commands were reported instead.
    DryRunComplete,
    /// The revision range held no usable commit text.
    NoCommits,
    /// The backend call failed or returned an undecodable payload.
    GenerationFailed,
    /// The generated name was empty or failed strict validation.
    InvalidName,
    /// An external command exited with a failure.
    CommandFailed,
}

/// Where the pipeline stands between two external steps.
pub enum State {
    /// Nothing has happened yet.
    Init,
    /// The log command is running.
    AwaitingHistory,
    /// The backend is generating.
    AwaitingGeneration,
    /// The bookmark-create command is running for this published name.
    AwaitingCreate { name: String },
    /// The push command is running.
    AwaitingPush,
    /// The run is over.
    Done { outcome: Outcome },
}

/// What the outside world reports back to the pipeline.
pub enum Event {
    /// Start a run.
    Begin,
    /// The log command succeeded and printed this text.
    History { text: String },
    /// The backend answered with this raw text.
    Generated { text: String },
    /// The backend call failed with this description.
    GenerationError { message: String },
    /// The awaited external command exited successfully.
    CommandDone,
    /// The awaited external command failed, or could not be started.
    CommandError { detail: String, code: Option<i32> },
}

/// What the driver must do next. Exactly one action comes out of each step.
pub enum Action {
    /// Run the version-control log command with these arguments.
    RunLog { args: Vec<String> },
    /// Send the prompt to the generation backend.
    CallBackend { model: String, prompt: String },
    /// Announce and run the bookmark-create command.
    CreateBookmark { announce: String, args: Vec<String> },
    /// Announce and run the push command.
    PushBookmark { announce: String, args: Vec<String> },
    /// Dry run: print the two would-be commands and stop.
    DryRunReport { create_line: String, push_line: String },
    /// Report the message on standard error and exit with the code.
    Fail { message: String, code: i32 },
    /// The run is complete; exit successfully.
    Finish,
}

/// Which events can arrive in which states: the driver only ever hands the
/// pipeline the answer to the action it was last given. A dry run never
/// issues a bookmark command, so in dry-run mode the two publishing states
/// cannot be reached.
pub open spec fn fits(cfg: Config, state: State, event: Event) -> bool {
    &&& cfg.dry_run ==> !(state is AwaitingCreate) && !(state is AwaitingPush)
    &&& match (state, event) {
        (State::Init, Event::Begin) => true,
        (State::AwaitingHistory, Event::History { .. }) => true,
        (State::AwaitingHistory, Event::CommandError { .. }) => true,
        (State::AwaitingGeneration, Event::Generated { .. }) => true,
        (State::AwaitingGeneration, Event::GenerationError { .. }) => true,
        (State::AwaitingCreate { .. }, Event::CommandDone) => true,
        (State::AwaitingCreate { .. }, Event::CommandError { .. }) => true,
        (State::AwaitingPush, Event::CommandDone) => true,
        (State::AwaitingPush, Event::CommandError { .. }) => true,
        _ => false,
    }
}

/// The event that reports a history of nothing but whitespace.
pub open spec fn blank_history(event: Event) -> bool {
    match event {
        Event::History { text } => is_blank(text@),
        _ => false,
    }
}

/// The name the generated text denotes: in structured mode the decoded JSON
/// string (or nothing, when the payload is malformed), otherwise the
/// sanitized text.
pub open spec fn decoded_name(structured: bool, text: Seq<char>) -> Option<Seq<char>> {
    if structured {
        json_string_value(text)
    } else {
        Some(sanitized(text))
    }
}

/// When a decoded name is acceptable: its hyphen placement must always be
/// right (not empty, no hyphen at either end, no run of hyphens), and with
/// strict validation on it must have the strict shape as well.
pub open spec fn name_ok(strict: bool, n: Seq<char>) -> bool {
    name_shape_ok(n) && (strict ==> strict_name(n))
}

/// The line announcing the bookmark creation.
pub open spec fn create_announce(name: Seq<char>, change: Seq<char>) -> Seq<char> {
    "jj bookmark create "@ + name + " --revision "@ + change
}

/// The line announcing the push.
pub open spec fn push_announce(name: Seq<char>) -> Seq<char> {
    "jj git push --bookmark "@ + name + " --allow-new"@
}

/// The dry-run report of the would-be creation.
pub open spec fn dry_run_create_line(name: Seq<char>, change: Seq<char>) -> Seq<char> {
    "[dry run] "@ + create_announce(name, change)
}

/// The dry-run report of the would-be push: the push command verbatim.
pub open spec fn dry_run_push_line(name: Seq<char>) -> Seq<char> {
    "[dry run] "@ + push_announce(name)
}

/// The report of a name that failed validation.
pub open spec fn invalid_name_message(n: Seq<char>) -> Seq<char> {
    "Invalid branch name: "@ + n
}

fn create_announce_line(name: &String, change: &String) -> (r: String)
    ensures
        r@ == create_announce(name@, change@),
{
    let r = String::from_str("jj bookmark create ");
    let r = r.concat(name.as_str());
    let r = r.concat(" --revision ");
    let r = r.concat(change.as_str());
    r
}

fn push_announce_line(name: &String) -> (r: String)
    ensures
        r@ == push_announce(name@),
{
    let r = String::from_str("jj git push --bookmark ");
    let r = r.concat(name.as_str());
    let r = r.concat(" --allow-new");
    r
}

/// What the one admissible transition out of `(state, event)` is: which next
/// state and which action, down to the exact texts they carry. Written as a
/// relation so that the contract of `step` can state it whole.
pub open spec fn transition_ok(
    cfg: Config,
    state: State,
    event: Event,
    next: State,
    action: Action,
) -> bool {
    match (state, event) {
        (State::Init, Event::Begin) => match action {
            Action::RunLog { args } => {
                &&& next is AwaitingHistory
                &&& log_args_ok(
                    args@,
                    template_for(cfg.log_format),
                    resolved_range(cfg.revision.deep_view(), cfg.from@, cfg.change@),
                )
            },
            _ => false,
        },
        (State::AwaitingHistory, Event::History { text }) => {
            if is_blank(text@) {
                match action {
                    Action::Fail { message, code } => {
                        &&& next == (State::Done { outcome: Outcome::NoCommits })
                        &&& message@ == "No commits to summarize"@
                        &&& code == 1
                    },
                    _ => false,
                }
            } else {
                match action {
                    Action::CallBackend { model, prompt } => {
                        &&& next is AwaitingGeneration
                        &&& model@ == cfg.model@
                        &&& prompt@ == prompt_text(text@)
                    },
                    _ => false,
                }
            }
        },
        (State::AwaitingGeneration, Event::Generated { text }) => {
            match decoded_name(cfg.structured, text@) {
                None => match action {
                    Action::Fail { message, code } => {
                        &&& next == (State::Done { outcome: Outcome::GenerationFailed })
                        &&& code == 1
                    },
                    _ => false,
                },
                Some(n) => {
                    let full = prefixed(cfg.prefix.deep_view(), n);
                    if !name_ok(cfg.strict, n) {
                        match action {
                            Action::Fail { message, code } => {
                                &&& next == (State::Done { outcome: Outcome::InvalidName })
                                &&& message@ == invalid_name_message(n)
                                &&& code == 1
                            },
                            _ => false,
                        }
                    } else if cfg.dry_run {
                        match action {
                            Action::DryRunReport { create_line, push_line } => {
                                &&& next == (State::Done { outcome: Outcome::DryRunComplete })
                                &&& create_line@ == dry_run_create_line(full, cfg.change@)
                                &&& push_line@ == dry_run_push_line(full)
                            },
                            _ => false,
                        }
                    } else {
                        match (next, action) {
                            (
                                State::AwaitingCreate { name },
                                Action::CreateBookmark { announce, args },
                            ) => {
                                &&& name@ == full
                                &&& announce@ == create_announce(full, cfg.change@)
                                &&& create_args_ok(args@, full, cfg.change@)
                            },
                            _ => false,
                        }
                    }
                },
            }
        },
        (State::AwaitingGeneration, Event::GenerationError { message: m }) => match action {
            Action::Fail { message, code } => {
                &&& next == (State::Done { outcome: Outcome::GenerationFailed })
                &&& message@ == m@
                &&& code == 1
            },
            _ => false,
        },
        (State::AwaitingCreate { name }, Event::CommandDone) => match action {
            Action::PushBookmark { announce, args } => {
                &&& next is AwaitingPush
                &&& announce@ == push_announce(name@)
                &&& push_args_ok(args@, name@)
            },
            _ => false,
        },
        (State::AwaitingPush, Event::CommandDone) => {
            &&& next == (State::Done { outcome: Outcome::Published })
            &&& action is Finish
        },
        (_, Event::CommandError { detail, code }) => match action {
            Action::Fail { message, code: c } => {
                &&& next == (State::Done { outcome: Outcome::CommandFailed })
                &&& message@ == detail@
                &&& c == spec_failure_exit_code(code)
            },
            _ => false,
        },
        _ => false,
    }
}

/// One step of the pipeline: from the current state and the outside world's
/// answer to the next state and the single next action. `transition_ok` pins
/// every transition of the state machine; the remaining clauses state the
/// ordering rules on their own: a generation request only ever answers a
/// history event, no bookmark command in dry-run mode, and a push only
/// immediately after a successful create.
pub fn step(cfg: &Config, state: State, event: Event) -> (r: (State, Action))
    requires
        fits(*cfg, state, event),
    ensures
        transition_ok(*cfg, state, event, r.0, r.1),
        cfg.dry_run ==> !(r.1 is CreateBookmark) && !(r.1 is PushBookmark),
        (r.1 is CreateBookmark) <==> (r.0 is AwaitingCreate),
        (r.1 is PushBookmark) <==> (r.0 is AwaitingPush),
        r.0 is AwaitingPush ==> state is AwaitingCreate && event is CommandDone,
        (r.1 is CallBackend) <==> (event is History && !blank_history(event)),
        blank_history(event) ==> r.0 == (State::Done { outcome: Outcome::NoCommits }) && r.1
            is Fail,
        event is GenerationError ==> r.0 is Done && r.1 is Fail,
{
    match (state, event) {
        (State::Init, Event::Begin) => {
            let template = log_template(cfg.log_format);
            let range = resolve_revset(&cfg.revision, &cfg.from, &cfg.change);
            let args = log_command_args(template, &range);
            (State::AwaitingHistory, Action::RunLog { args })
        },
        (State::AwaitingHistory, Event::History { text }) => {
            if blank(text.as_str()) {
                (
                    State::Done { outcome: Outcome::NoCommits },
                    Action::Fail { message: String::from_str("No commits to summarize"), code: 1 },
                )
            } else {
                let prompt = build_prompt(text.as_str());
                (
                    State::AwaitingGeneration,
                    Action::CallBackend { model: cfg.model.clone(), prompt },
                )
            }
        },
        (State::AwaitingGeneration, Event::Generated { text }) => {
            let decoded: Result<String, String> = if cfg.structured {
                parse_json_string(text.as_str())
            } else {
                Ok(sanitize(text.as_str()))
            };
            match decoded {
                Err(message) => (
                    State::Done { outcome: Outcome::GenerationFailed },
                    Action::Fail { message, code: 1 },
                ),
                Ok(n) => {
                    let good = if cfg.strict {
                        strict_name_check(n.as_str())
                    } else {
                        name_shape_check(n.as_str())
                    };
                    if !good {
                        let message = String::from_str("Invalid branch name: ");
                        let message = message.concat(n.as_str());
                        (State::Done { outcome: Outcome::InvalidName }, Action::Fail {
                            message,
                            code: 1,
                        })
                    } else {
                        let full = apply_prefix(&cfg.prefix, n);
                        if cfg.dry_run {
                            let announce = create_announce_line(&full, &cfg.change);
                            let create_line = String::from_str("[dry run] ").concat(
                                announce.as_str(),
                            );
                            let push_line = String::from_str("[dry run] ").concat(
                                push_announce_line(&full).as_str(),
                            );
                            (State::Done { outcome: Outcome::DryRunComplete }, Action::DryRunReport {
                                create_line,
                                push_line,
                            })
                        } else {
                            let announce = create_announce_line(&full, &cfg.change);
                            let args = create_command_args(&full, &cfg.change);
                            (State::AwaitingCreate { name: full }, Action::CreateBookmark {
                                announce,
                                args,
                            })
                        }
                    }
                },
            }
        },
        (State::AwaitingGeneration, Event::GenerationError { message }) => (
            State::Done { outcome: Outcome::GenerationFailed },
            Action::Fail { message, code: 1 },
        ),
        (State::AwaitingCreate { name }, Event::CommandDone) => {
            let announce = push_announce_line(&name);
            let args = push_command_args(&name);
            (State::AwaitingPush, Action::PushBookmark { announce, args })
        },
        (State::AwaitingPush, Event::CommandDone) => (
            State::Done { outcome: Outcome::Published },
            Action::Finish,
        ),
        (_, Event::CommandError { detail, code }) => {
            let c = failure_exit_code(code);
            (State::Done { outcome: Outcome::CommandFailed }, Action::Fail {
                message: detail,
                code: c,
            })
        },
        _ => vstd::pervasive::unreached(),
    }
}

} // verus!
