//! The manual pause before browser tests run: its configuration, and the prompt dialogue that
//! decides whether to continue.
use crate::env::{env_flag_enabled, env_flag_value_enabled, lemma_flag_words};
use crate::error::BrowserTestError;
use crate::text::{
    chars_equal, lemma_ascii_white_space, lemma_trim_ignores_line_ending, normalize, normalized,
    trimmed,
};
use vstd::prelude::*;
use vstd::string::*;

verus! {

/// Environment variable that enables the pause when a config reads the default variable.
pub const DEFAULT_PAUSE_ENV: &'static str = "BROWSER_TEST_PAUSE";

/// The message printed before the prompt unless another one is set.
pub open spec fn default_pause_message() -> Seq<char> {
    "Browser test execution is paused."@
}

/// The prompt printed unless another one is set.
pub open spec fn default_pause_prompt() -> Seq<char> {
    "Continue with tests? [y/N] "@
}

/// How a pause config decides whether the pause is enabled.
#[derive(Debug, Clone, PartialEq, Eq, Hash)]
pub enum PauseActivation {
    /// Never pause.
    Disabled,
    /// Always pause.
    Enabled,
    /// Pause when the named environment variable is a switched-on flag.
    FromEnvVar(String),
    /// Pause when `BROWSER_TEST_PAUSE` is a switched-on flag.
    FromEnv,
}

impl PauseActivation {
    /// Whether this activation enables the pause, given the value of the variable it reads.
    pub open spec fn enables(&self, env_value: Option<Seq<char>>) -> bool {
        match self {
            PauseActivation::Disabled => false,
            PauseActivation::Enabled => true,
            PauseActivation::FromEnvVar(_) => env_flag_value_enabled(env_value),
            PauseActivation::FromEnv => env_flag_value_enabled(env_value),
        }
    }

    /// An activation that reads a variable, whether the default one or a named one, enables
    /// the pause exactly when the variable holds a switched-on flag, whatever its name: an
    /// unset variable leaves the pause off, and `1`, `true`, `yes`, `on` or `enabled`
    /// (trimmed, in any ASCII case) turn it on. The direct choices ignore the variable.
    pub proof fn lemma_variable_activation(&self, env_value: Option<Seq<char>>)
        ensures
            self is Disabled ==> !self.enables(env_value),
            self is Enabled ==> self.enables(env_value),
            self is FromEnvVar || self is FromEnv ==> {
                &&& self.enables(env_value) == env_flag_value_enabled(env_value)
                &&& self.enables(env_value) == PauseActivation::FromEnv.enables(env_value)
                &&& env_value is None ==> !self.enables(env_value)
                &&& (env_value matches Some(v) && (normalized(v) == "1"@ || normalized(v)
                    == "true"@ || normalized(v) == "yes"@ || normalized(v) == "on"@
                    || normalized(v) == "enabled"@)) ==> self.enables(env_value)
            },
            forall|a: String, b: String|
                #[trigger] PauseActivation::FromEnvVar(a).enables(env_value)
                    == #[trigger] PauseActivation::FromEnvVar(b).enables(env_value),
    {
        if let Some(v) = env_value {
            lemma_flag_words(v);
        }
    }

    /// The activation for a direct choice.
    pub fn from_enabled(enabled: bool) -> (r: Self)
        ensures
            r == (if enabled {
                PauseActivation::Enabled
            } else {
                PauseActivation::Disabled
            }),
    {
        if enabled {
            PauseActivation::Enabled
        } else {
            PauseActivation::Disabled
        }
    }

    /// Whether this activation enables the pause; `env_value` is the value of the variable it
    /// reads (`None` when unset), and is ignored by the direct choices.
    pub fn resolve(&self, env_value: Option<&str>) -> (r: bool)
        ensures
            r == self.enables(
                match env_value {
                    Some(v) => Some(v@),
                    None => None,
                },
            ),
    {
        match self {
            PauseActivation::Disabled => false,
            PauseActivation::Enabled => true,
            PauseActivation::FromEnvVar(_) => env_flag_enabled(env_value),
            PauseActivation::FromEnv => env_flag_enabled(env_value),
        }
    }
}

/// Configuration for the manual pause before browser tests execute.
#[derive(Debug, Clone, PartialEq, Eq)]
pub struct PauseConfig {
    activation: PauseActivation,
    message: String,
    prompt: String,
}

/// Resolved configuration for the manual pause before browser tests execute.
#[derive(Debug, Clone, PartialEq, Eq)]
pub struct ResolvedPauseConfig {
    enabled: bool,
    message: String,
    prompt: String,
}

impl Default for PauseConfig {
    fn default() -> (r: Self)
        ensures
            r.activation() == PauseActivation::Disabled,
            r.message() == default_pause_message(),
            r.prompt() == default_pause_prompt(),
    {
        PauseConfig {
            activation: PauseActivation::Disabled,
            message: String::from_str("Browser test execution is paused."),
            prompt: String::from_str("Continue with tests? [y/N] "),
        }
    }
}

impl PauseConfig {
    /// How this config decides whether to pause.
    pub closed spec fn activation(&self) -> PauseActivation {
        self.activation
    }

    /// The message printed before the prompt.
    pub closed spec fn message(&self) -> Seq<char> {
        self.message@
    }

    /// The interactive prompt.
    pub closed spec fn prompt(&self) -> Seq<char> {
        self.prompt@
    }

    /// A disabled pause config.
    pub fn disabled() -> (r: Self)
        ensures
            r.activation() == PauseActivation::Disabled,
            r.message() == default_pause_message(),
            r.prompt() == default_pause_prompt(),
    {
        Self::enabled(false)
    }

    /// A pause config enabled by `BROWSER_TEST_PAUSE`.
    ///
    /// The variable enables the pause when it is `1`, `true`, `yes`, `on` or `enabled` (trimmed,
    /// in any ASCII case).
    pub fn from_env() -> (r: Self)
        ensures
            r.activation() == PauseActivation::FromEnv,
            r.message() == default_pause_message(),
            r.prompt() == default_pause_prompt(),
    {
        let mut c = Self::default();
        c.activation = PauseActivation::FromEnv;
        c
    }

    /// A pause config enabled by the environment variable `env_var`.
    pub fn from_env_var(env_var: &str) -> (r: Self)
        ensures
            r.activation() matches PauseActivation::FromEnvVar(name) && name@ == env_var@,
            r.message() == default_pause_message(),
            r.prompt() == default_pause_prompt(),
    {
        let mut c = Self::default();
        c.activation = PauseActivation::FromEnvVar(String::from_str(env_var));
        c
    }

    /// An enabled or disabled pause config.
    pub fn enabled(enabled: bool) -> (r: Self)
        ensures
            r.activation() == (if enabled {
                PauseActivation::Enabled
            } else {
                PauseActivation::Disabled
            }),
            r.message() == default_pause_message(),
            r.prompt() == default_pause_prompt(),
    {
        let mut c = Self::default();
        c.activation = PauseActivation::from_enabled(enabled);
        c
    }

    /// Set the message printed before the prompt.
    pub fn with_message(self, message: String) -> (r: Self)
        ensures
            r.activation() == self.activation(),
            r.message() == message@,
            r.prompt() == self.prompt(),
    {
        let mut c = self;
        c.message = message;
        c
    }

    /// Set the interactive prompt.
    pub fn with_prompt(self, prompt: String) -> (r: Self)
        ensures
            r.activation() == self.activation(),
            r.message() == self.message(),
            r.prompt() == prompt@,
    {
        let mut c = self;
        c.prompt = prompt;
        c
    }

    /// The environment variable that resolving this config reads, if any.
    pub fn env_var(&self) -> (r: Option<String>)
        ensures
            r matches Some(name) ==> (match self.activation() {
                PauseActivation::FromEnvVar(n) => name@ == n@,
                PauseActivation::FromEnv => name@ == DEFAULT_PAUSE_ENV@,
                _ => false,
            }),
            r is None <==> (self.activation() is Disabled || self.activation() is Enabled),
    {
        match &self.activation {
            PauseActivation::Disabled => None,
            PauseActivation::Enabled => None,
            PauseActivation::FromEnvVar(name) => Some(name.clone()),
            PauseActivation::FromEnv => Some(String::from_str(DEFAULT_PAUSE_ENV)),
        }
    }

    /// Resolve this config to an immediate pause config; `env_value` is the value of the
    /// variable named by [`Self::env_var`] (`None` when unset or when no variable is read).
    pub fn resolve(&self, env_value: Option<&str>) -> (r: ResolvedPauseConfig)
        ensures
            r.is_enabled_spec() == self.activation().enables(
                match env_value {
                    Some(v) => Some(v@),
                    None => None,
                },
            ),
            r.message() == self.message(),
            r.prompt() == self.prompt(),
    {
        ResolvedPauseConfig {
            enabled: self.activation.resolve(env_value),
            message: self.message.clone(),
            prompt: self.prompt.clone(),
        }
    }

    /// Resolve this config and report whether the pause is enabled.
    pub fn is_enabled(&self, env_value: Option<&str>) -> (r: bool)
        ensures
            r == self.activation().enables(
                match env_value {
                    Some(v) => Some(v@),
                    None => None,
                },
            ),
    {
        self.resolve(env_value).is_enabled()
    }

    /// The config that keeps a resolved config's choice, message and prompt.
    pub fn from_resolved(config: ResolvedPauseConfig) -> (r: Self)
        ensures
            r.activation() == (if config.is_enabled_spec() {
                PauseActivation::Enabled
            } else {
                PauseActivation::Disabled
            }),
            r.message() == config.message(),
            r.prompt() == config.prompt(),
    {
        PauseConfig {
            activation: PauseActivation::from_enabled(config.enabled),
            message: config.message,
            prompt: config.prompt,
        }
    }
}

impl From<ResolvedPauseConfig> for PauseConfig {
    fn from(config: ResolvedPauseConfig) -> (r: Self) {
        PauseConfig {
            activation: PauseActivation::from_enabled(config.enabled),
            message: config.message,
            prompt: config.prompt,
        }
    }
}

impl vstd::std_specs::convert::FromSpecImpl<ResolvedPauseConfig> for PauseConfig {
    open spec fn obeys_from_spec() -> bool {
        true
    }

    closed spec fn from_spec(config: ResolvedPauseConfig) -> Self {
        PauseConfig {
            activation: if config.enabled {
                PauseActivation::Enabled
            } else {
                PauseActivation::Disabled
            },
            message: config.message,
            prompt: config.prompt,
        }
    }
}

/// A pause config converted (with `From`/`Into`) from a resolved one keeps the resolved choice,
/// message and prompt; so resolving it again, whatever the environment holds, gives back the
/// same choice, message and prompt: a converted config never consults the environment.
pub proof fn lemma_from_resolved_round_trip(config: ResolvedPauseConfig, env_value: Option<Seq<char>>)
    ensures
        ({
            let p = <PauseConfig as vstd::std_specs::convert::FromSpec<
                ResolvedPauseConfig,
            >>::from_spec(config);
            &&& p.activation() == (if config.is_enabled_spec() {
                PauseActivation::Enabled
            } else {
                PauseActivation::Disabled
            })
            &&& p.message() == config.message()
            &&& p.prompt() == config.prompt()
            &&& p.activation().enables(env_value) == config.is_enabled_spec()
        }),
{
}

impl ResolvedPauseConfig {
    /// Whether the pause is enabled.
    pub closed spec fn is_enabled_spec(&self) -> bool {
        self.enabled
    }

    /// The message printed before the prompt.
    pub closed spec fn message(&self) -> Seq<char> {
        self.message@
    }

    /// The interactive prompt.
    pub closed spec fn prompt(&self) -> Seq<char> {
        self.prompt@
    }

    /// A disabled resolved pause config.
    pub fn disabled() -> (r: Self)
        ensures
            !r.is_enabled_spec(),
            r.message() == default_pause_message(),
            r.prompt() == default_pause_prompt(),
    {
        Self::enabled(false)
    }

    /// An enabled or disabled resolved pause config.
    pub fn enabled(enabled: bool) -> (r: Self)
        ensures
            r.is_enabled_spec() == enabled,
            r.message() == default_pause_message(),
            r.prompt() == default_pause_prompt(),
    {
        ResolvedPauseConfig {
            enabled,
            message: String::from_str("Browser test execution is paused."),
            prompt: String::from_str("Continue with tests? [y/N] "),
        }
    }

    /// Set the message printed before the prompt.
    pub fn with_message(self, message: String) -> (r: Self)
        ensures
            r.is_enabled_spec() == self.is_enabled_spec(),
            r.message() == message@,
            r.prompt() == self.prompt(),
    {
        let mut c = self;
        c.message = message;
        c
    }

    /// Set the interactive prompt.
    pub fn with_prompt(self, prompt: String) -> (r: Self)
        ensures
            r.is_enabled_spec() == self.is_enabled_spec(),
            r.message() == self.message(),
            r.prompt() == prompt@,
    {
        let mut c = self;
        c.prompt = prompt;
        c
    }

    /// Whether the pause is enabled.
    pub fn is_enabled(&self) -> (r: bool)
        ensures
            r == self.is_enabled_spec(),
    {
        self.enabled
    }

    /// The message printed before the prompt.
    pub fn message_text(&self) -> (r: &str)
        ensures
            r@ == self.message(),
    {
        self.message.as_str()
    }

    /// The interactive prompt.
    pub fn prompt_text(&self) -> (r: &str)
        ensures
            r@ == self.prompt(),
    {
        self.prompt.as_str()
    }
}

/// The user's choice after a pause.
#[derive(Debug, Clone, Copy, PartialEq, Eq, Structural)]
pub enum PauseDecision {
    /// Continue with the browser tests.
    Continue,
    /// Abort before running browser tests.
    Abort,
}

/// The decision an answer line stands for, if it is a recognized answer: `y`, `yes`, `c` and
/// `continue` continue; `n`, `no`, `q`, `quit` and an empty answer abort (all trimmed, in any
/// ASCII case).
pub open spec fn answer_decision(line: Seq<char>) -> Option<PauseDecision> {
    let w = normalized(line);
    if w == "y"@ || w == "yes"@ || w == "c"@ || w == "continue"@ {
        Some(PauseDecision::Continue)
    } else if w == "n"@ || w == "no"@ || w == "q"@ || w == "quit"@ || w == ""@ {
        Some(PauseDecision::Abort)
    } else {
        None
    }
}

/// Classifies an answer line read at the pause prompt.
pub fn classify_pause_answer(line: &str) -> (r: Option<PauseDecision>)
    ensures
        r == answer_decision(line@),
{
    let w = normalize(line);
    if chars_equal(&w, "y") || chars_equal(&w, "yes") || chars_equal(&w, "c") || chars_equal(
        &w,
        "continue",
    ) {
        Some(PauseDecision::Continue)
    } else if chars_equal(&w, "n") || chars_equal(&w, "no") || chars_equal(&w, "q")
        || chars_equal(&w, "quit") || chars_equal(&w, "") {
        Some(PauseDecision::Abort)
    } else {
        None
    }
}

/// An answer that is blank once trimmed aborts: pressing enter at the prompt is the explicit
/// "no".
pub proof fn lemma_blank_answer_aborts(line: Seq<char>)
    requires
        trimmed(line).len() == 0,
    ensures
        answer_decision(line) == Some(PauseDecision::Abort),
{
    reveal_strlit("");
    reveal_strlit("y");
    reveal_strlit("yes");
    reveal_strlit("c");
    reveal_strlit("continue");
    assert(normalized(line) =~= ""@);
}

/// The words an answer is classified by, compared once the answer is trimmed and folded to
/// ASCII lower case: `y`, `yes`, `c` and `continue` continue; `n`, `no`, `q`, `quit` and a
/// blank answer abort; anything else is not an answer, and the prompt is shown again.
pub proof fn lemma_answer_words(line: Seq<char>)
    ensures
        (normalized(line) == "y"@ || normalized(line) == "yes"@ || normalized(line) == "c"@
            || normalized(line) == "continue"@) ==> answer_decision(line) == Some(
            PauseDecision::Continue,
        ),
        (normalized(line) == "n"@ || normalized(line) == "no"@ || normalized(line) == "q"@
            || normalized(line) == "quit"@ || normalized(line) == ""@) ==> answer_decision(line)
            == Some(PauseDecision::Abort),
        answer_decision(line) is None <==> !(normalized(line) == "y"@ || normalized(line)
            == "yes"@ || normalized(line) == "c"@ || normalized(line) == "continue"@
            || normalized(line) == "n"@ || normalized(line) == "no"@ || normalized(line) == "q"@
            || normalized(line) == "quit"@ || normalized(line) == ""@),
{
    reveal_strlit("y");
    reveal_strlit("yes");
    reveal_strlit("c");
    reveal_strlit("continue");
    reveal_strlit("n");
    reveal_strlit("no");
    reveal_strlit("q");
    reveal_strlit("quit");
    reveal_strlit("");
    let yes_words = seq!["y"@, "yes"@, "c"@, "continue"@];
    let no_words = seq!["n"@, "no"@, "q"@, "quit"@, ""@];
    assert forall|i: int, j: int|
        0 <= i < yes_words.len() && 0 <= j < no_words.len() implies #[trigger] yes_words[i]
        != #[trigger] no_words[j] by {
        if yes_words[i].len() == no_words[j].len() {
            assert(yes_words[i][0] != no_words[j][0]);
        }
    }
}

/// An answer read with its line ending, `\n` or `\r\n` (as a Windows console delivers it),
/// is classified as the bare answer; so typing `y` and pressing enter continues on every
/// platform.
pub proof fn lemma_answer_ignores_line_ending(line: Seq<char>)
    ensures
        answer_decision(line + "\n"@) == answer_decision(line),
        answer_decision(line + "\r\n"@) == answer_decision(line),
        answer_decision("y\r\n"@) == Some(PauseDecision::Continue),
{
    lemma_trim_ignores_line_ending(line);
    reveal_strlit("y");
    reveal_strlit("\r\n");
    reveal_strlit("y\r\n");
    lemma_trim_ignores_line_ending("y"@);
    assert("y"@ + "\r\n"@ =~= "y\r\n"@);
    lemma_ascii_white_space('y');
    assert(trimmed("y"@) =~= "y"@);
    assert(normalized("y"@) =~= "y"@);
}

/// How a pause dialogue ends.
#[derive(Debug, Clone, Copy, PartialEq, Eq, Structural)]
pub enum PauseOutcome {
    /// The user answered.
    Decided(PauseDecision),
    /// Writing or flushing the prompt failed.
    WriteFailed,
    /// Reading the answer failed.
    ReadFailed,
    /// The input ended before an answer was given.
    EndOfInput,
}

impl PauseOutcome {
    /// The error context that a failed dialogue reports.
    pub open spec fn error_spec(self) -> Option<BrowserTestError> {
        match self {
            PauseOutcome::Decided(_) => None,
            PauseOutcome::WriteFailed => Some(BrowserTestError::FlushPausePrompt),
            PauseOutcome::ReadFailed => Some(BrowserTestError::ReadPauseResponse),
            PauseOutcome::EndOfInput => Some(BrowserTestError::ReadPauseResponse),
        }
    }

    /// The error context that a failed dialogue reports, or `None` after an answer.
    pub fn error(self) -> (r: Option<BrowserTestError>)
        ensures
            r == self.error_spec(),
    {
        match self {
            PauseOutcome::Decided(_) => None,
            PauseOutcome::WriteFailed => Some(BrowserTestError::FlushPausePrompt),
            PauseOutcome::ReadFailed => Some(BrowserTestError::ReadPauseResponse),
            PauseOutcome::EndOfInput => Some(BrowserTestError::ReadPauseResponse),
        }
    }
}

/// The next piece of terminal work a pause dialogue asks for.
#[derive(Debug, Clone, PartialEq, Eq)]
pub enum PauseStep {
    /// Write this text to stdout.
    Write(String),
    /// Flush stdout.
    Flush,
    /// Read one line from stdin.
    ReadLine,
    /// The dialogue is over.
    Finish(PauseOutcome),
}

/// What happened when the last requested piece of work was done.
#[derive(Debug, Clone, PartialEq, Eq)]
pub enum PauseEvent {
    /// The write or flush succeeded.
    Done,
    /// The write or flush failed.
    Failed,
    /// A line was read (with its line ending, if any).
    LineRead(String),
    /// Reading hit the end of the input.
    EndOfInput,
    /// Reading failed.
    ReadFailed,
}

/// Where a pause dialogue stands.
#[derive(Debug, Clone, Copy, PartialEq, Eq, Structural)]
pub enum PausePhase {
    /// About to write the message.
    Message,
    /// About to end the message line.
    MessageEnd,
    /// About to write the hint.
    Hint,
    /// About to end the hint line.
    HintEnd,
    /// About to write the prompt.
    Prompt,
    /// About to flush the prompt.
    Flush,
    /// About to read the answer.
    Read,
    /// About to remind the user of the accepted answers.
    Reminder,
    /// Over, with this outcome.
    Over(PauseOutcome),
}

/// The reminder written after an answer that is not recognized.
pub open spec fn reminder_text() -> Seq<char> {
    "Enter 'y' to continue or 'n' to abort.\n"@
}

/// The interactive pause: writes the message, the hint when there is a non-empty one, then
/// prompts until an answer is recognized, the input ends, or terminal work fails.
pub struct PauseDialog {
    phase: PausePhase,
    message: String,
    prompt: String,
    hint: Option<String>,
}

impl PauseDialog {
    /// Where the dialogue stands.
    pub closed spec fn phase(&self) -> PausePhase {
        self.phase
    }

    /// The message written first.
    pub closed spec fn message(&self) -> Seq<char> {
        self.message@
    }

    /// The prompt written before each read.
    pub closed spec fn prompt(&self) -> Seq<char> {
        self.prompt@
    }

    /// The hint written after the message, when there is one.
    pub closed spec fn hint(&self) -> Option<Seq<char>> {
        match self.hint {
            Some(h) => Some(h@),
            None => None,
        }
    }

    /// The dialogue's internal consistency: a hint is kept only when it is not empty, and the
    /// hint phases are reached only when there is one.
    pub closed spec fn wf(&self) -> bool {
        &&& self.hint matches Some(h) ==> h@.len() > 0
        &&& (self.phase == PausePhase::Hint || self.phase == PausePhase::HintEnd) ==> self.hint is Some
    }

    /// The phase after the message line: the hint when there is one, else the prompt.
    pub open spec fn after_message(&self) -> PausePhase {
        if self.hint() is Some {
            PausePhase::Hint
        } else {
            PausePhase::Prompt
        }
    }

    /// A dialogue for a pause with this config and optional hint; an empty hint is not shown.
    pub fn new(config: &ResolvedPauseConfig, hint: Option<&str>) -> (r: Self)
        ensures
            r.wf(),
            r.phase() == PausePhase::Message,
            r.message() == config.message(),
            r.prompt() == config.prompt(),
            r.hint() == (match hint {
                Some(h) => if h@.len() > 0 {
                    Some(h@)
                } else {
                    None
                },
                None => None,
            }),
    {
        let kept = match hint {
            Some(h) => if h.unicode_len() > 0 {
                Some(String::from_str(h))
            } else {
                None
            },
            None => None,
        };
        PauseDialog {
            phase: PausePhase::Message,
            message: config.message.clone(),
            prompt: config.prompt.clone(),
            hint: kept,
        }
    }

    /// The work that the current phase asks for.
    pub fn next_step(&self) -> (r: PauseStep)
        requires
            self.wf(),
        ensures
            match self.phase() {
                PausePhase::Message => r matches PauseStep::Write(t) && t@ == self.message(),
                PausePhase::MessageEnd => r matches PauseStep::Write(t) && t@ == "\n"@,
                PausePhase::Hint => r matches PauseStep::Write(t) && self.hint() == Some(t@),
                PausePhase::HintEnd => r matches PauseStep::Write(t) && t@ == "\n"@,
                PausePhase::Prompt => r matches PauseStep::Write(t) && t@ == self.prompt(),
                PausePhase::Flush => r == PauseStep::Flush,
                PausePhase::Read => r == PauseStep::ReadLine,
                PausePhase::Reminder => r matches PauseStep::Write(t) && t@ == reminder_text(),
                PausePhase::Over(o) => r == PauseStep::Finish(o),
            },
    {
        match self.phase {
            PausePhase::Message => PauseStep::Write(self.message.clone()),
            PausePhase::MessageEnd => PauseStep::Write(String::from_str("\n")),
            PausePhase::Hint => match &self.hint {
                Some(h) => PauseStep::Write(h.clone()),
                None => PauseStep::Write(String::new()),
            },
            PausePhase::HintEnd => PauseStep::Write(String::from_str("\n")),
            PausePhase::Prompt => PauseStep::Write(self.prompt.clone()),
            PausePhase::Flush => PauseStep::Flush,
            PausePhase::Read => PauseStep::ReadLine,
            PausePhase::Reminder => PauseStep::Write(
                String::from_str("Enter 'y' to continue or 'n' to abort.\n"),
            ),
            PausePhase::Over(o) => PauseStep::Finish(o),
        }
    }

    /// The phase that follows the current one after `event`.
    pub open spec fn next_phase(&self, event: PauseEvent) -> PausePhase {
        match self.phase() {
            PausePhase::Over(o) => PausePhase::Over(o),
            PausePhase::Read => match event {
                PauseEvent::LineRead(line) => match answer_decision(line@) {
                    Some(d) => PausePhase::Over(PauseOutcome::Decided(d)),
                    None => PausePhase::Reminder,
                },
                PauseEvent::EndOfInput => PausePhase::Over(PauseOutcome::EndOfInput),
                _ => PausePhase::Over(PauseOutcome::ReadFailed),
            },
            p => match event {
                PauseEvent::Done => match p {
                    PausePhase::Message => PausePhase::MessageEnd,
                    PausePhase::MessageEnd => self.after_message(),
                    PausePhase::Hint => PausePhase::HintEnd,
                    PausePhase::HintEnd => PausePhase::Prompt,
                    PausePhase::Prompt => PausePhase::Flush,
                    PausePhase::Flush => PausePhase::Read,
                    _ => PausePhase::Prompt,
                },
                _ => PausePhase::Over(PauseOutcome::WriteFailed),
            },
        }
    }

    /// While waiting for an answer: a recognized answer ends the dialogue with its decision, an
    /// unrecognized one brings the reminder, and the end of the input or a failed read ends it
    /// with the read error rather than with an abort.
    pub proof fn lemma_answers_decide(&self, event: PauseEvent)
        requires
            self.phase() == PausePhase::Read,
        ensures
            event matches PauseEvent::LineRead(line) ==> self.next_phase(event) == (match answer_decision(line@) {
                Some(d) => PausePhase::Over(PauseOutcome::Decided(d)),
                None => PausePhase::Reminder,
            }),
            event is EndOfInput || event is ReadFailed ==> (self.next_phase(event) matches PausePhase::Over(o)
                && o.error_spec() == Some(BrowserTestError::ReadPauseResponse)),
    {
    }

    /// A failed write or flush ends the dialogue with the prompt error, whatever was written
    /// before.
    pub proof fn lemma_failed_write_ends_dialog(&self)
        requires
            !(self.phase() is Read),
            !(self.phase() is Over),
        ensures
            self.next_phase(PauseEvent::Failed) == PausePhase::Over(PauseOutcome::WriteFailed),
            PauseOutcome::WriteFailed.error_spec() == Some(BrowserTestError::FlushPausePrompt),
    {
    }

    /// Records what happened when the work of the current phase was done, and moves on: after
    /// the message line the hint (if any), then the prompt, a flush and a read; a recognized
    /// answer ends the dialogue with its decision, any other line brings a reminder and a new
    /// prompt; the end of the input or a failed read or write ends it with an error.
    pub fn record(&mut self, event: PauseEvent)
        requires
            old(self).wf(),
        ensures
            final(self).wf(),
            final(self).message() == old(self).message(),
            final(self).prompt() == old(self).prompt(),
            final(self).hint() == old(self).hint(),
            final(self).phase() == old(self).next_phase(event),
    {
        let next = match self.phase {
            PausePhase::Over(o) => PausePhase::Over(o),
            PausePhase::Read => match &event {
                PauseEvent::LineRead(line) => match classify_pause_answer(line.as_str()) {
                    Some(d) => PausePhase::Over(PauseOutcome::Decided(d)),
                    None => PausePhase::Reminder,
                },
                PauseEvent::EndOfInput => PausePhase::Over(PauseOutcome::EndOfInput),
                _ => PausePhase::Over(PauseOutcome::ReadFailed),
            },
            p => match &event {
                PauseEvent::Done => match p {
                    PausePhase::Message => PausePhase::MessageEnd,
                    PausePhase::MessageEnd => if self.hint.is_some() {
                        PausePhase::Hint
                    } else {
                        PausePhase::Prompt
                    },
                    PausePhase::Hint => PausePhase::HintEnd,
                    PausePhase::HintEnd => PausePhase::Prompt,
                    PausePhase::Prompt => PausePhase::Flush,
                    PausePhase::Flush => PausePhase::Read,
                    _ => PausePhase::Prompt,
                },
                _ => PausePhase::Over(PauseOutcome::WriteFailed),
            },
        };
        self.phase = next;
    }
}

} // verus!
