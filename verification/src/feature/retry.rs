//! The retry policy: how a failure is classified, what the next attempt
//! looks like, and when to give up.

use vstd::prelude::*;
use vstd::arithmetic::div_mod::lemma_add_mod_noop;
use vstd::arithmetic::div_mod::lemma_small_mod;
use crate::feature::executable::selected_index;
use crate::feature::executable::PromptExecutableWithModel;
use crate::feature::prompt_result::{PromptExecutableError, PromptResult};
use crate::feature::remote::RemoteError;
use crate::prompt::text::{chars_of, occurs_in, str_contains};

verus! {

/// Seconds to wait before asking an overloaded service again.
pub const RATE_LIMIT_DELAY_SECS: u64 = 30;

/// Seconds to wait before asking a failing service again.
pub const SERVER_ERROR_DELAY_SECS: u64 = 40;

/// What to do about a failure.
#[derive(Debug, Clone, Copy, PartialEq, Eq, Structural)]
pub enum RetryAction {
    /// Give up: another attempt would fail the same way.
    Abort,
    /// Try again with the same model.
    RetrySameModel,
    /// Try again with the next model of the roster.
    RetryNextModel,
    /// Try again with the same model after this many seconds.
    RetryAfterDelay(u64),
}

/// The service signals overload.
pub open spec fn is_rate_limited(code: Seq<char>) -> bool {
    occurs_in("429"@, code)
}

/// A decimal digit.
pub open spec fn is_digit(c: char) -> bool {
    '0' <= c && c <= '9'
}

/// The service signals a failure of its own: the code holds a status of
/// the class 5xx, that is a `5` followed by two digits.
pub open spec fn is_server_error(code: Seq<char>) -> bool {
    exists|i: int|
        0 <= i && i + 3 <= code.len() && #[trigger] code[i] == '5' && is_digit(code[i + 1])
            && is_digit(code[i + 2])
}

/// The action for a failure of the service with `model_count` candidates.
pub open spec fn classify_remote_spec(error: RemoteError, model_count: nat) -> RetryAction {
    if error.is_transport() {
        RetryAction::RetrySameModel
    } else {
        match error.code() {
            Some(code) => if is_rate_limited(code) {
                if model_count > 1 {
                    RetryAction::RetryNextModel
                } else {
                    RetryAction::RetryAfterDelay(RATE_LIMIT_DELAY_SECS)
                }
            } else if is_server_error(code) {
                RetryAction::RetryAfterDelay(SERVER_ERROR_DELAY_SECS)
            } else {
                RetryAction::Abort
            },
            None => RetryAction::Abort,
        }
    }
}

/// The action for a failed execution with `model_count` candidates.
pub open spec fn classify_spec(error: PromptExecutableError, model_count: nat) -> RetryAction {
    match error {
        PromptExecutableError::ModelNotSet => RetryAction::Abort,
        PromptExecutableError::InvalidModelSelection(_) => RetryAction::RetrySameModel,
        PromptExecutableError::FailBuildingPrompt(_) => RetryAction::Abort,
        PromptExecutableError::OpenAI(e) => classify_remote_spec(e, model_count),
        PromptExecutableError::RetryFail(_) => RetryAction::Abort,
        PromptExecutableError::Deserialize(_) => RetryAction::RetrySameModel,
    }
}

/// The model selection of the attempt that follows `error`: the next
/// index, wrapping round, when the roster is rotated; no selection after an
/// invalid one; else the selection that failed.
pub open spec fn next_selection(
    error: PromptExecutableError,
    model_selected: Option<usize>,
    model_count: nat,
) -> Option<usize> {
    match classify_spec(error, model_count) {
        RetryAction::RetryNextModel => Some(
            ((selected_index(model_selected) + 1) % (model_count as int)) as usize,
        ),
        _ => if error is InvalidModelSelection {
            None
        } else {
            model_selected
        },
    }
}

/// The seconds to wait before the attempt that an action asks for.
pub open spec fn delay_of(action: RetryAction) -> u64 {
    match action {
        RetryAction::RetryAfterDelay(secs) => secs,
        _ => 0,
    }
}

/// Whether `c` is a decimal digit.
fn digit(c: char) -> (r: bool)
    ensures
        r == is_digit(c),
{
    '0' <= c && c <= '9'
}

/// Whether `code` holds a status of the class 5xx.
pub fn holds_server_status(code: &str) -> (r: bool)
    ensures
        r == is_server_error(code@),
{
    let chars = chars_of(code);
    let n = chars.len();
    if n < 3 {
        return false;
    }
    let mut i: usize = 0;
    while i < n - 2
        invariant
            chars@ == code@,
            n == chars@.len(),
            n >= 3,
            forall|j: int|
                0 <= j < i && j + 3 <= chars@.len() ==> !(#[trigger] chars@[j] == '5' && is_digit(
                    chars@[j + 1],
                ) && is_digit(chars@[j + 2])),
        decreases n - i,
    {
        if chars[i] == '5' && digit(chars[i + 1]) && digit(chars[i + 2]) {
            return true;
        }
        i += 1;
    }
    false
}

/// Classifies a failure of the service.
pub fn classify_remote(error: &RemoteError, model_count: usize) -> (r: RetryAction)
    ensures
        r == classify_remote_spec(*error, model_count as nat),
{
    match error {
        RemoteError::Reqwest(_) => RetryAction::RetrySameModel,
        RemoteError::JSONDeserialize(_) => RetryAction::RetrySameModel,
        RemoteError::StreamError(_) => RetryAction::RetrySameModel,
        RemoteError::ApiError(e) => match &e.code {
            Some(code) => {
                if str_contains(code.as_str(), "429") {
                    if model_count > 1 {
                        RetryAction::RetryNextModel
                    } else {
                        RetryAction::RetryAfterDelay(RATE_LIMIT_DELAY_SECS)
                    }
                } else if holds_server_status(code.as_str()) {
                    RetryAction::RetryAfterDelay(SERVER_ERROR_DELAY_SECS)
                } else {
                    RetryAction::Abort
                }
            },
            None => RetryAction::Abort,
        },
        _ => RetryAction::Abort,
    }
}

/// Classifies a failed execution.
pub fn classify(error: &PromptExecutableError, model_count: usize) -> (r: RetryAction)
    ensures
        r == classify_spec(*error, model_count as nat),
{
    match error {
        PromptExecutableError::ModelNotSet => RetryAction::Abort,
        PromptExecutableError::InvalidModelSelection(_) => RetryAction::RetrySameModel,
        PromptExecutableError::FailBuildingPrompt(_) => RetryAction::Abort,
        PromptExecutableError::OpenAI(e) => classify_remote(e, model_count),
        PromptExecutableError::RetryFail(_) => RetryAction::Abort,
        PromptExecutableError::Deserialize(_) => RetryAction::RetrySameModel,
    }
}

/// A failed execution with what is needed to repeat it: the error, the
/// selection that was in use and the size of the roster.
#[derive(Debug)]
pub struct RetryableExecuteError {
    pub error: PromptExecutableError,
    pub model_selected: Option<usize>,
    pub model_count: usize,
}

impl RetryableExecuteError {
    /// Records a failure.
    pub fn new(error: PromptExecutableError, model_selected: Option<usize>, model_count: usize) -> (r:
        Self)
        ensures
            r == (RetryableExecuteError { error, model_selected, model_count }),
    {
        RetryableExecuteError { error, model_selected, model_count }
    }
}

/// What the dispatcher asks of its driver.
#[derive(Debug)]
pub enum RetryDirective {
    /// Wait `delay_secs`, then execute again with this selection.
    Attempt { select_model: Option<usize>, delay_secs: u64 },
    /// Stop and report this error.
    Fail(PromptExecutableError),
}

/// The directive for `failure` with `remaining` attempts left. With none
/// left the failure is reported inside `RetryFail`. A failure that no
/// attempt can mend is reported as it is. Any other asks for an attempt.
pub open spec fn decide(remaining: nat, failure: RetryableExecuteError) -> RetryDirective {
    if remaining == 0 {
        RetryDirective::Fail(PromptExecutableError::RetryFail(Box::new(failure.error)))
    } else {
        let action = classify_spec(failure.error, failure.model_count as nat);
        if action == RetryAction::Abort {
            RetryDirective::Fail(failure.error)
        } else {
            RetryDirective::Attempt {
                select_model: next_selection(
                    failure.error,
                    failure.model_selected,
                    failure.model_count as nat,
                ),
                delay_secs: delay_of(action),
            }
        }
    }
}

/// A run of the dispatcher over attempts that all fail: `errors[0]` is the
/// failure that started it and each later one is the failure of the attempt
/// asked for before. Gives the number of attempts asked for, and the error
/// reported if the run has ended.
pub open spec fn run_failures(
    remaining: nat,
    model_selected: Option<usize>,
    model_count: usize,
    errors: Seq<PromptExecutableError>,
) -> (nat, Option<PromptExecutableError>)
    decreases errors.len(),
{
    if errors.len() == 0 {
        (0, None)
    } else {
        match decide(
            remaining,
            RetryableExecuteError { error: errors[0], model_selected, model_count },
        ) {
            RetryDirective::Fail(e) => (0, Some(e)),
            RetryDirective::Attempt { select_model, delay_secs } => {
                let rest = run_failures(
                    (remaining - 1) as nat,
                    select_model,
                    model_count,
                    errors.drop_first(),
                );
                (rest.0 + 1, rest.1)
            },
        }
    }
}

/// With a budget of `n`, a failure followed by `n` failed attempts, where
/// each failure but the last could be retried, ends in `RetryFail` around
/// the failure of the `n`-th attempt, and no further attempt is asked for.
pub proof fn lemma_budget_exhausted(
    budget: nat,
    model_selected: Option<usize>,
    model_count: usize,
    errors: Seq<PromptExecutableError>,
)
    requires
        errors.len() == budget + 1,
        forall|i: int|
            0 <= i < budget ==> classify_spec(#[trigger] errors[i], model_count as nat)
                != RetryAction::Abort,
    ensures
        run_failures(budget, model_selected, model_count, errors) == (
            budget,
            Some(PromptExecutableError::RetryFail(Box::new(errors[budget as int]))),
        ),
    decreases budget,
{
    if budget > 0 {
        let rest = errors.drop_first();
        assert forall|i: int| 0 <= i < budget - 1 implies classify_spec(
            #[trigger] rest[i],
            model_count as nat,
        ) != RetryAction::Abort by {
            assert(rest[i] == errors[i + 1]);
        }
        let first = RetryableExecuteError { error: errors[0], model_selected, model_count };
        lemma_budget_exhausted(
            (budget - 1) as nat,
            decide(budget, first)->select_model,
            model_count,
            rest,
        );
        assert(rest[budget - 1] == errors[budget as int]);
    }
}

/// However the attempts fail, no more of them are asked for than the
/// budget allows.
pub proof fn lemma_attempts_within_budget(
    remaining: nat,
    model_selected: Option<usize>,
    model_count: usize,
    errors: Seq<PromptExecutableError>,
)
    ensures
        run_failures(remaining, model_selected, model_count, errors).0 <= remaining,
    decreases errors.len(),
{
    if errors.len() > 0 {
        let first = RetryableExecuteError { error: errors[0], model_selected, model_count };
        if decide(remaining, first) is Attempt {
            lemma_attempts_within_budget(
                (remaining - 1) as nat,
                decide(remaining, first)->select_model,
                model_count,
                errors.drop_first(),
            );
        }
    }
}

/// A failure that no attempt can mend ends the run at once, whatever is
/// left of the budget.
pub proof fn lemma_abort_spends_nothing(remaining: nat, failure: RetryableExecuteError)
    requires
        remaining > 0,
        classify_spec(failure.error, failure.model_count as nat) == RetryAction::Abort,
    ensures
        decide(remaining, failure) == RetryDirective::Fail(failure.error),
{
}

/// An overloaded service is answered by rotation where the roster has
/// another model, and by a fixed wait on the same model where it has not.
pub proof fn lemma_rate_limit_policy(remaining: nat, failure: RetryableExecuteError)
    requires
        remaining > 0,
        failure.error matches PromptExecutableError::OpenAI(e) && !e.is_transport() && (
        e.code() matches Some(code) && is_rate_limited(code)),
    ensures
        failure.model_count >= 2 ==> decide(remaining, failure) == (RetryDirective::Attempt {
            select_model: Some(
                ((selected_index(failure.model_selected) + 1) % (
                failure.model_count as int)) as usize,
            ),
            delay_secs: 0,
        }),
        failure.model_count < 2 ==> decide(remaining, failure) == (RetryDirective::Attempt {
            select_model: failure.model_selected,
            delay_secs: 30,
        }),
{
}

/// The dispatcher: a budget of attempts that each retry spends.
#[derive(Debug)]
pub struct RetryStrategy {
    retry_times: usize,
}

impl RetryStrategy {
    /// The attempts that are left.
    pub closed spec fn remaining(&self) -> nat {
        self.retry_times as nat
    }

    /// A dispatcher with a budget of `retry_times` attempts.
    pub fn new(retry_times: usize) -> (r: Self)
        ensures
            r.remaining() == retry_times,
    {
        RetryStrategy { retry_times }
    }

    /// A dispatcher with a budget of `retry_times` attempts.
    pub fn default_strategy(retry_times: usize) -> (r: Self)
        ensures
            r.remaining() == retry_times,
    {
        RetryStrategy::new(retry_times)
    }

    /// The attempts that are left.
    pub fn attempts_left(&self) -> (n: usize)
        ensures
            n == self.remaining(),
    {
        self.retry_times
    }

    /// Decides what follows a failure, and spends one attempt of the budget
    /// where it asks for one.
    pub fn on_failure(&mut self, failure: RetryableExecuteError) -> (r: RetryDirective)
        ensures
            r == decide(old(self).remaining(), failure),
            final(self).remaining() == if r is Attempt {
                old(self).remaining() - 1
            } else {
                old(self).remaining() as int
            },
    {
        if self.retry_times == 0 {
            return RetryDirective::Fail(PromptExecutableError::RetryFail(Box::new(failure.error)));
        }
        let count = failure.model_count;
        let action = classify(&failure.error, count);
        match action {
            RetryAction::Abort => RetryDirective::Fail(failure.error),
            RetryAction::RetryNextModel => {
                let selected: usize = match failure.model_selected {
                    Some(i) => i,
                    None => 0,
                };
                proof {
                    lemma_add_mod_noop(selected as int, 1, count as int);
                    lemma_small_mod(1, count as nat);
                }
                let next: usize = (selected % count + 1) % count;
                self.retry_times = self.retry_times - 1;
                RetryDirective::Attempt { select_model: Some(next), delay_secs: 0 }
            },
            RetryAction::RetrySameModel => {
                let select_model = match &failure.error {
                    PromptExecutableError::InvalidModelSelection(_) => None,
                    _ => failure.model_selected,
                };
                self.retry_times = self.retry_times - 1;
                RetryDirective::Attempt { select_model, delay_secs: 0 }
            },
            RetryAction::RetryAfterDelay(secs) => {
                self.retry_times = self.retry_times - 1;
                RetryDirective::Attempt { select_model: failure.model_selected, delay_secs: secs }
            },
        }
    }
}

impl Default for RetryStrategy {
    /// A dispatcher with a budget of three attempts.
    fn default() -> (r: Self)
        ensures
            r.remaining() == 3,
    {
        RetryStrategy::default_strategy(3)
    }
}

/// What an execution that can be retried gave: a decoded value, nothing,
/// or a failure with what is needed to repeat it.
#[derive(Debug)]
pub struct RetryablePromptResult<S>(pub Result<Option<S>, RetryableExecuteError>);

impl<S> RetryablePromptResult<S> {
    /// Whether the execution succeeded.
    pub fn is_ok(&self) -> (r: bool)
        ensures
            r == self.0 is Ok,
    {
        self.0.is_ok()
    }

    /// Whether the execution failed.
    pub fn is_err(&self) -> (r: bool)
        ensures
            r == self.0 is Err,
    {
        self.0.is_err()
    }

    /// The value of a success.
    pub fn unwrap(self) -> (r: Option<S>)
        requires
            self.0 is Ok,
        ensures
            self.0 == Ok::<Option<S>, RetryableExecuteError>(r),
    {
        match self.0 {
            Ok(s) => s,
            Err(_) => None,
        }
    }

    /// The failure record.
    pub fn unwrap_err(self) -> (r: RetryableExecuteError)
        requires
            self.0 is Err,
        ensures
            self.0 == Err::<Option<S>, RetryableExecuteError>(r),
    {
        match self.0 {
            Ok(_) => RetryableExecuteError {
                error: PromptExecutableError::ModelNotSet,
                model_selected: None,
                model_count: 0,
            },
            Err(e) => e,
        }
    }

    /// A success.
    pub fn ok(value: Option<S>) -> (r: Self)
        ensures
            r.0 == Ok::<Option<S>, RetryableExecuteError>(value),
    {
        RetryablePromptResult(Ok(value))
    }

    /// A failure.
    pub fn err(value: RetryableExecuteError) -> (r: Self)
        ensures
            r.0 == Err::<Option<S>, RetryableExecuteError>(value),
    {
        RetryablePromptResult(Err(value))
    }
}

impl<'a, C, F: Fn(&C) -> bool, P> PromptExecutableWithModel<'a, C, F, P> {
    /// Turns the result of an execution into one that can be retried: a
    /// failure is recorded with the selection that was in use and the size
    /// of this binding's roster.
    pub fn retryable<S>(&self, result: PromptResult<S>, select_model: Option<usize>) -> (r:
        RetryablePromptResult<S>)
        ensures
            match result.0 {
                Ok(value) => r.0 == Ok::<Option<S>, RetryableExecuteError>(value),
                Err(error) => r.0 matches Err(failure) && failure.error == error
                    && failure.model_selected == select_model && failure.model_count
                    == self.roster().len(),
            },
    {
        match result.0 {
            Ok(value) => RetryablePromptResult(Ok(value)),
            Err(error) => RetryablePromptResult(
                Err(
                    RetryableExecuteError {
                        error,
                        model_selected: select_model,
                        model_count: self.model_count(),
                    },
                ),
            ),
        }
    }
}

/// One step of a retried execution.
#[derive(Debug)]
pub enum RetryStep<S> {
    /// The execution is over, with this result.
    Done(Result<Option<S>, PromptExecutableError>),
    /// Wait `delay_secs`, then execute again with this selection.
    Attempt { select_model: Option<usize>, delay_secs: u64 },
}

/// The step that follows `outcome` with `remaining` attempts left: a
/// success ends the execution whatever is left of the budget, a failure is
/// decided by [`decide`].
pub open spec fn step_spec<S>(remaining: nat, outcome: RetryablePromptResult<S>) -> RetryStep<S> {
    match outcome.0 {
        Ok(value) => RetryStep::Done(Ok(value)),
        Err(failure) => match decide(remaining, failure) {
            RetryDirective::Fail(e) => RetryStep::Done(Err(e)),
            RetryDirective::Attempt { select_model, delay_secs } => RetryStep::Attempt {
                select_model,
                delay_secs,
            },
        },
    }
}

impl RetryStrategy {
    /// Takes the outcome of an execution and says how the driver goes on.
    pub fn step<S>(&mut self, outcome: RetryablePromptResult<S>) -> (r: RetryStep<S>)
        ensures
            r == step_spec(old(self).remaining(), outcome),
            final(self).remaining() == if r is Attempt {
                old(self).remaining() - 1
            } else {
                old(self).remaining() as int
            },
    {
        match outcome.0 {
            Ok(value) => RetryStep::Done(Ok(value)),
            Err(failure) => match self.on_failure(failure) {
                RetryDirective::Fail(e) => RetryStep::Done(Err(e)),
                RetryDirective::Attempt { select_model, delay_secs } => RetryStep::Attempt {
                    select_model,
                    delay_secs,
                },
            },
        }
    }
}

impl<S> From<RetryableExecuteError> for RetryablePromptResult<S> {
    fn from(value: RetryableExecuteError) -> (r: RetryablePromptResult<S>) {
        RetryablePromptResult(Err(value))
    }
}

impl<S> vstd::std_specs::convert::FromSpecImpl<RetryableExecuteError> for RetryablePromptResult<S> {
    open spec fn obeys_from_spec() -> bool {
        true
    }

    open spec fn from_spec(value: RetryableExecuteError) -> RetryablePromptResult<S> {
        RetryablePromptResult(Err(value))
    }
}

} // verus!
