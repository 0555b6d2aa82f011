//! The policy for a stored layout of another version: ask once, and reset
//! to the default layout only on a yes.

use vstd::prelude::*;

verus! {

/// The version of the layout that this build expects.
pub const EXPECTED_VERSION: u64 = 5;

/// Where the migration of a stored layout stands.
#[derive(Clone, Copy, Debug, PartialEq, Eq, Structural)]
pub enum MigrationState {
    /// The stored layout was read and is in use.
    Loaded,
    /// The stored layout is of another version and stays in use while the
    /// user is asked whether to reset it.
    AwaitingConfirmation,
    /// The default layout replaces what was stored.
    ResettingToDefault,
    /// The user kept the layout of the other version.
    KeptStale,
}

/// What the caller is to do after a step of the migration.
#[derive(Clone, Copy, Debug, PartialEq, Eq, Structural)]
pub enum MigrationAction {
    /// Nothing.
    Nothing,
    /// Ask the user whether to reset the layout; the first option is yes.
    Prompt,
    /// Build the default layout, stamp it with the expected version, apply
    /// it and write it at once.
    ResetToDefault,
}

/// The index, among the options of the prompt, of the answer that resets
/// the layout.
pub const RESET_OPTION: usize = 0;

/// How grave the matter of a prompt is.
#[derive(Clone, Copy, Debug, PartialEq, Eq, Structural)]
pub enum PromptLevel {
    Info,
    Warning,
    Critical,
}

/// What the user is asked: the level, the message and the labels of the
/// options, in order.
#[derive(Debug, PartialEq, Eq)]
pub struct PromptRequest {
    pub level: PromptLevel,
    pub message: String,
    pub options: Vec<String>,
}

/// The prompt about a reset of a layout of another version: yes is the
/// first option, no the second.
pub fn reset_prompt() -> (out: PromptRequest)
    ensures
        out.level == PromptLevel::Info,
        out.message@ == "The default main layout has been updated.\nDo you want to reset the layout to default?"@,
        out.options@.len() == 2,
        out.options@[RESET_OPTION as int]@ == "Yes"@,
        out.options@[1]@ == "No"@,
{
    let mut options: Vec<String> = Vec::new();
    options.push("Yes".to_owned());
    options.push("No".to_owned());
    PromptRequest {
        level: PromptLevel::Info,
        message: "The default main layout has been updated.\nDo you want to reset the layout to default?".to_owned(),
        options,
    }
}

/// Whether a stored layout of `version` is of another version than expected.
pub open spec fn is_stale(version: Option<u64>) -> bool {
    version != Some(EXPECTED_VERSION)
}

/// The step taken once a stored layout of `version` was read.
pub open spec fn after_load(version: Option<u64>) -> (MigrationState, MigrationAction) {
    if is_stale(version) {
        (MigrationState::AwaitingConfirmation, MigrationAction::Prompt)
    } else {
        (MigrationState::Loaded, MigrationAction::Nothing)
    }
}

/// The step taken on the user's answer: `choice` is the index of the option
/// chosen, or nothing where the prompt was dismissed. Only the first option
/// of a prompt that is outstanding resets the layout.
pub open spec fn after_answer(state: MigrationState, choice: Option<usize>) -> (
    MigrationState,
    MigrationAction,
) {
    if state == MigrationState::AwaitingConfirmation {
        if choice == Some(RESET_OPTION) {
            (MigrationState::ResettingToDefault, MigrationAction::ResetToDefault)
        } else {
            (MigrationState::KeptStale, MigrationAction::Nothing)
        }
    } else {
        (state, MigrationAction::Nothing)
    }
}

impl MigrationState {
    /// The state and action once a stored layout of `version` was read.
    pub fn on_loaded(version: Option<u64>) -> (out: (MigrationState, MigrationAction))
        ensures
            out == after_load(version),
    {
        let current = match version {
            Some(v) => v == EXPECTED_VERSION,
            None => false,
        };
        if current {
            (MigrationState::Loaded, MigrationAction::Nothing)
        } else {
            (MigrationState::AwaitingConfirmation, MigrationAction::Prompt)
        }
    }

    /// The state and action where no stored layout could be read: the
    /// default layout is used without asking.
    pub fn on_read_failure() -> (out: (MigrationState, MigrationAction))
        ensures
            out == (MigrationState::ResettingToDefault, MigrationAction::ResetToDefault),
    {
        (MigrationState::ResettingToDefault, MigrationAction::ResetToDefault)
    }

    /// The state and action on the user's answer to the prompt.
    pub fn on_answer(self, choice: Option<usize>) -> (out: (MigrationState, MigrationAction))
        ensures
            out == after_answer(self, choice),
    {
        match self {
            MigrationState::AwaitingConfirmation => {
                let yes = match choice {
                    Some(index) => index == RESET_OPTION,
                    None => false,
                };
                if yes {
                    (MigrationState::ResettingToDefault, MigrationAction::ResetToDefault)
                } else {
                    (MigrationState::KeptStale, MigrationAction::Nothing)
                }
            },
            MigrationState::Loaded => (MigrationState::Loaded, MigrationAction::Nothing),
            MigrationState::ResettingToDefault => (
                MigrationState::ResettingToDefault,
                MigrationAction::Nothing,
            ),
            MigrationState::KeptStale => (MigrationState::KeptStale, MigrationAction::Nothing),
        }
    }
}

/// Every transition is taken once: after an answer, a further answer
/// changes nothing and asks for nothing.
pub proof fn lemma_answer_is_one_shot(
    state: MigrationState,
    first: Option<usize>,
    second: Option<usize>,
)
    ensures
        after_answer(after_answer(state, first).0, second) == (
            after_answer(state, first).0,
            MigrationAction::Nothing,
        ),
{
}

/// A reset is asked for in two cases only: the layout could not be read,
/// or it is of another version and the user chose the first option.
pub proof fn lemma_reset_needs_consent(state: MigrationState, choice: Option<usize>)
    ensures
        after_answer(state, choice).1 == MigrationAction::ResetToDefault <==> (state
            == MigrationState::AwaitingConfirmation && choice == Some(RESET_OPTION)),
        after_answer(state, choice).1 != MigrationAction::Prompt,
{
}

} // verus!
