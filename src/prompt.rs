//! The secret prompt: the request payload, the bounded wait for the answer,
//! and how the end of that wait becomes the prompt's result.
use vstd::prelude::*;
use vstd::string::*;

verus! {

/// Seconds the prompt waits for its answer.
pub const PROMPT_TIMEOUT_SECS: u64 = 120;

/// Text of a prompt that timed out.
pub const TIMEOUT_MESSAGE: &'static str = "deadline has elapsed";

/// Text of a prompt whose slot closed without a value.
pub const CANCELLED_MESSAGE: &'static str = "channel closed";

/// Payload published to ask for the secret.
pub struct SudoPasswordRequest {
    pub request_id: String,
}

impl SudoPasswordRequest {
    pub fn new(request_id: String) -> (r: Self)
        ensures
            r.request_id@ == request_id@,
    {
        SudoPasswordRequest { request_id }
    }
}

/// How the wait for the answer ended.
pub enum WaitOutcome {
    /// The slot delivered this secret.
    Received(String),
    /// The slot was dropped without a value.
    ChannelClosed,
    /// The time bound passed first.
    TimedOut,
}

/// Why a secret prompt failed.
#[derive(PartialEq, Eq, Debug, Clone)]
pub enum PromptError {
    /// No answer came within the time bound.
    Timeout,
    /// The slot closed without delivering.
    Cancelled,
    /// Publishing the request failed, for the reason given.
    Publish(String),
}

/// The text of a prompt error as the caller receives it.
pub open spec fn prompt_error_text(e: PromptError) -> Seq<char> {
    match e {
        PromptError::Timeout => TIMEOUT_MESSAGE@,
        PromptError::Cancelled => CANCELLED_MESSAGE@,
        PromptError::Publish(m) => m@,
    }
}

impl PromptError {
    /// The error rendered as text.
    pub fn message(&self) -> (r: String)
        ensures
            r@ == prompt_error_text(*self),
    {
        match self {
            PromptError::Timeout => String::from_str(TIMEOUT_MESSAGE),
            PromptError::Cancelled => String::from_str(CANCELLED_MESSAGE),
            PromptError::Publish(m) => m.clone(),
        }
    }
}

/// The prompt's result once its wait has ended: the secret, a timeout, or a
/// cancellation.
pub fn finish_wait(outcome: WaitOutcome) -> (r: Result<String, PromptError>)
    ensures
        match outcome {
            WaitOutcome::Received(s) => r matches Ok(t) && t@ == s@,
            WaitOutcome::ChannelClosed => r == Err::<String, PromptError>(PromptError::Cancelled),
            WaitOutcome::TimedOut => r == Err::<String, PromptError>(PromptError::Timeout),
        },
{
    match outcome {
        WaitOutcome::Received(s) => Ok(s),
        WaitOutcome::ChannelClosed => Err(PromptError::Cancelled),
        WaitOutcome::TimedOut => Err(PromptError::Timeout),
    }
}


/// Where a prompt stands.
#[derive(PartialEq, Eq, Structural, Clone, Copy, Debug)]
pub enum PromptStage {
    /// The request is being published.
    Publishing,
    /// The request went out; the response subscription is being made.
    Subscribing,
    /// Subscribed; waiting, within the time bound, for the answer.
    Waiting,
    /// The wait is over; the subscription is being removed.
    Unsubscribing,
    /// The result has been handed back.
    Finished,
}

/// Whether a response subscription exists in this stage.
pub open spec fn holds_subscription(stage: PromptStage) -> bool {
    stage == PromptStage::Waiting || stage == PromptStage::Unsubscribing
}

/// What the environment reports back to a prompt.
pub enum PromptEvent {
    /// Publishing the request succeeded, or failed with this reason.
    Published(Result<(), String>),
    /// The response subscription is in place.
    Subscribed,
    /// The bounded wait ended thus.
    WaitEnded(WaitOutcome),
    /// The response subscription is gone.
    Unsubscribed,
}

/// What a prompt asks the environment to do next.
pub enum PromptAction {
    /// Publish the request.
    Publish,
    /// Subscribe to the response event.
    Subscribe,
    /// Wait for the answer, at most this many seconds.
    Wait { secs: u64 },
    /// Remove the response subscription.
    Unsubscribe,
    /// Hand this result back to the caller: the prompt is over.
    Return(Result<String, PromptError>),
    /// The event does not fit the prompt's stage; nothing to do.
    Ignore,
}

/// The decisions of one secret prompt: publish, subscribe, wait, and then
/// always unsubscribe before handing the result back.
pub struct PromptSession {
    stage: PromptStage,
    result: Option<Result<String, PromptError>>,
}

impl PromptSession {
    /// The stage the prompt is in.
    pub closed spec fn stage_spec(&self) -> PromptStage {
        self.stage
    }

    /// The result kept while the subscription is removed.
    pub closed spec fn held_result(&self) -> Option<Result<String, PromptError>> {
        self.result
    }

    /// A result is kept exactly while the subscription is being removed.
    pub open spec fn wf(&self) -> bool {
        (self.stage_spec() == PromptStage::Unsubscribing) == (self.held_result() is Some)
    }

    /// A new prompt, with its first action: publish the request.
    pub fn start() -> (r: (Self, PromptAction))
        ensures
            r.0.wf(),
            r.0.stage_spec() == PromptStage::Publishing,
            r.1 is Publish,
    {
        (PromptSession { stage: PromptStage::Publishing, result: None }, PromptAction::Publish)
    }

    /// The stage the prompt is in.
    pub fn stage(&self) -> (r: PromptStage)
        ensures
            r == self.stage_spec(),
    {
        self.stage
    }

    /// Takes in what the environment reports and says what to do next. A
    /// result is only handed back where no subscription exists: when the
    /// publish failed before any was made, or once it has been removed; an
    /// ended wait, whatever its outcome, always leads to unsubscribing first.
    pub fn step(&mut self, event: PromptEvent) -> (r: PromptAction)
        requires
            old(self).wf(),
        ensures
            final(self).wf(),
            r is Return ==> {
                &&& !holds_subscription(final(self).stage_spec())
                &&& final(self).stage_spec() == PromptStage::Finished
                &&& (old(self).stage_spec() == PromptStage::Publishing || old(self).stage_spec()
                    == PromptStage::Unsubscribing)
            },
            r is Ignore ==> *final(self) == *old(self),
            match (old(self).stage_spec(), event) {
                (PromptStage::Publishing, PromptEvent::Published(Ok(()))) => {
                    &&& r is Subscribe
                    &&& final(self).stage_spec() == PromptStage::Subscribing
                },
                (PromptStage::Publishing, PromptEvent::Published(Err(m))) => {
                    r matches PromptAction::Return(Err(PromptError::Publish(e))) && e@ == m@
                },
                (PromptStage::Subscribing, PromptEvent::Subscribed) => {
                    &&& r == (PromptAction::Wait { secs: PROMPT_TIMEOUT_SECS })
                    &&& final(self).stage_spec() == PromptStage::Waiting
                },
                (PromptStage::Waiting, PromptEvent::WaitEnded(o)) => {
                    &&& r is Unsubscribe
                    &&& final(self).stage_spec() == PromptStage::Unsubscribing
                    &&& match o {
                        WaitOutcome::Received(s) => final(self).held_result() matches Some(Ok(t))
                            && t@ == s@,
                        WaitOutcome::ChannelClosed => final(self).held_result() == Some(
                            Err::<String, PromptError>(PromptError::Cancelled),
                        ),
                        WaitOutcome::TimedOut => final(self).held_result() == Some(
                            Err::<String, PromptError>(PromptError::Timeout),
                        ),
                    }
                },
                (PromptStage::Unsubscribing, PromptEvent::Unsubscribed) => {
                    &&& r == PromptAction::Return(old(self).held_result()->Some_0)
                    &&& final(self).stage_spec() == PromptStage::Finished
                },
                _ => r is Ignore,
            },
    {
        match (self.stage, event) {
            (PromptStage::Publishing, PromptEvent::Published(Ok(()))) => {
                self.stage = PromptStage::Subscribing;
                PromptAction::Subscribe
            },
            (PromptStage::Publishing, PromptEvent::Published(Err(m))) => {
                self.stage = PromptStage::Finished;
                PromptAction::Return(Err(PromptError::Publish(m)))
            },
            (PromptStage::Subscribing, PromptEvent::Subscribed) => {
                self.stage = PromptStage::Waiting;
                PromptAction::Wait { secs: PROMPT_TIMEOUT_SECS }
            },
            (PromptStage::Waiting, PromptEvent::WaitEnded(o)) => {
                self.stage = PromptStage::Unsubscribing;
                self.result = Some(finish_wait(o));
                PromptAction::Unsubscribe
            },
            (PromptStage::Unsubscribing, PromptEvent::Unsubscribed) => {
                self.stage = PromptStage::Finished;
                match self.result.take() {
                    Some(res) => PromptAction::Return(res),
                    None => PromptAction::Ignore,
                }
            },
            _ => PromptAction::Ignore,
        }
    }
}

} // verus!
