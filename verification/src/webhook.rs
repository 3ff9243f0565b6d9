//! The decisions of a webhook delivery: when to try again, how long to
//! wait before that, and when to give up. Sending and waiting are left to
//! the caller, who reports what each attempt brought.

use vstd::prelude::*;
use crate::models::text_view;
use crate::text::decimal;
use crate::text::decimal_text;

verus! {

/// What one attempt brought.
#[derive(Debug)]
pub enum Response {
    /// The receiver answered with a success status.
    Success,
    /// The receiver answered with another status, and this body.
    Refused { status: String, body: String },
    /// No answer came in time.
    TimedOut,
    /// The attempt failed otherwise, as described.
    Broken(String),
}

/// What the caller is to do next.
#[derive(Debug)]
pub enum Action {
    /// Wait so many seconds, then send.
    Send { delay_secs: u64 },
    /// Nothing: the payload was delivered.
    Delivered,
    /// Nothing: the delivery failed for good, with this message.
    GiveUp(String),
}

/// A delivery in progress.
#[derive(Debug)]
pub struct Delivery {
    /// How often a failed attempt may be followed by another.
    pub max_retries: u32,
    /// How many attempts have failed so far.
    pub failed: u32,
    /// What the last failed attempt brought.
    pub last_error: Option<String>,
}

/// Mathematical value of a [`Response`].
pub enum ResponseView {
    Success,
    Refused { status: Seq<char>, body: Seq<char> },
    TimedOut,
    Broken(Seq<char>),
}

/// Mathematical value of an [`Action`].
pub enum ActionView {
    Send { delay_secs: u64 },
    Delivered,
    GiveUp(Seq<char>),
}

/// Mathematical value of a [`Delivery`].
pub struct DeliveryView {
    pub max_retries: u32,
    pub failed: u32,
    pub last_error: Option<Seq<char>>,
}

impl View for Response {
    type V = ResponseView;

    open spec fn view(&self) -> ResponseView {
        match self {
            Response::Success => ResponseView::Success,
            Response::Refused { status, body } => ResponseView::Refused {
                status: status@,
                body: body@,
            },
            Response::TimedOut => ResponseView::TimedOut,
            Response::Broken(why) => ResponseView::Broken(why@),
        }
    }
}

impl View for Action {
    type V = ActionView;

    open spec fn view(&self) -> ActionView {
        match self {
            Action::Send { delay_secs } => ActionView::Send { delay_secs: *delay_secs },
            Action::Delivered => ActionView::Delivered,
            Action::GiveUp(message) => ActionView::GiveUp(message@),
        }
    }
}

impl View for Delivery {
    type V = DeliveryView;

    open spec fn view(&self) -> DeliveryView {
        DeliveryView {
            max_retries: self.max_retries,
            failed: self.failed,
            last_error: text_view(self.last_error),
        }
    }
}

/// Two to the power of `n`.
pub open spec fn two_to(n: nat) -> nat
    decreases n,
{
    if n == 0 {
        1
    } else {
        2 * two_to((n - 1) as nat)
    }
}

/// The seconds to wait after `failed` attempts have failed: one after the
/// first, and twice as long after each further one, held at the largest
/// number that fits.
pub open spec fn backoff(failed: u32) -> u64 {
    if failed == 0 {
        0
    } else if two_to((failed - 1) as nat) <= u64::MAX {
        two_to((failed - 1) as nat) as u64
    } else {
        u64::MAX
    }
}

/// How a failed attempt is described.
pub open spec fn description(response: ResponseView) -> Option<Seq<char>> {
    match response {
        ResponseView::Success => None,
        ResponseView::Refused { status, body } => Some("HTTP "@ + status + " - "@ + body),
        ResponseView::TimedOut => Some("timeout"@),
        ResponseView::Broken(why) => Some(why),
    }
}

/// How a text that may be missing is written for a developer.
pub uninterp spec fn debug_form(text: Option<Seq<char>>) -> Seq<char>;

/// `format!` with `{:?}` on an `Option<String>`: the text as `Debug`
/// writes it, which is what `debug_form` names.
#[verifier::external_body]
fn debug_text(text: &Option<String>) -> (r: String)
    ensures
        r@ == debug_form(text_view(*text)),
{
    format!("{:?}", text)
}

/// The message of a delivery that failed for good.
pub open spec fn failure_message(max_retries: u32, last_error: Option<Seq<char>>) -> Seq<char> {
    "Webhook failed after "@ + decimal((max_retries + 1) as nat) + " attempts: "@ + debug_form(
        last_error,
    )
}

impl DeliveryView {
    /// The delivery and the next action after an attempt brought
    /// `response`: a success ends the delivery; a failure is followed by
    /// another attempt, after the backoff, while retries are left, and
    /// ends the delivery with the failure message once none is left.
    pub open spec fn after(self, response: ResponseView) -> (DeliveryView, ActionView) {
        match description(response) {
            None => (self, ActionView::Delivered),
            Some(why) => if self.failed < self.max_retries {
                (
                    DeliveryView {
                        failed: (self.failed + 1) as u32,
                        last_error: Some(why),
                        ..self
                    },
                    ActionView::Send { delay_secs: backoff((self.failed + 1) as u32) },
                )
            } else {
                (
                    DeliveryView { last_error: Some(why), ..self },
                    ActionView::GiveUp(failure_message(self.max_retries, Some(why))),
                )
            },
        }
    }
}

/// A larger exponent never gives a smaller power.
proof fn lemma_two_to_grows(a: nat, b: nat)
    requires
        a <= b,
    ensures
        two_to(a) <= two_to(b),
    decreases b,
{
    if a < b {
        lemma_two_to_grows(a, (b - 1) as nat);
    }
}

/// Computes the seconds to wait after `failed` attempts have failed.
pub fn backoff_secs(failed: u32) -> (secs: u64)
    ensures
        secs == backoff(failed),
{
    if failed == 0 {
        return 0;
    }
    let mut secs: u64 = 1;
    let mut done: u32 = 1;
    while done < failed
        invariant
            1 <= done <= failed,
            secs == two_to((done - 1) as nat),
        decreases failed - done,
    {
        if secs > u64::MAX / 2 {
            proof {
                lemma_two_to_grows(done as nat, (failed - 1) as nat);
            }
            return u64::MAX;
        }
        secs = secs * 2;
        done = done + 1;
    }
    secs
}

/// Describes a failed attempt.
pub fn describe(response: Response) -> (r: Option<String>)
    ensures
        text_view(r) == description(response@),
{
    match response {
        Response::Success => None,
        Response::Refused { status, body } => Some(
            String::from_str("HTTP ").concat(status.as_str()).concat(" - ").concat(body.as_str()),
        ),
        Response::TimedOut => Some(String::from_str("timeout")),
        Response::Broken(why) => Some(why),
    }
}

impl Delivery {
    /// A delivery before its first attempt, and the action that starts it:
    /// to send at once.
    pub fn new(max_retries: u32) -> (r: (Delivery, Action))
        ensures
            r.0@ == (DeliveryView { max_retries, failed: 0, last_error: None }),
            r.1@ == (ActionView::Send { delay_secs: 0 }),
    {
        (Delivery { max_retries, failed: 0, last_error: None }, Action::Send { delay_secs: 0 })
    }

    /// Takes what an attempt brought and says what to do next.
    pub fn after(self, response: Response) -> (r: (Delivery, Action))
        ensures
            (r.0@, r.1@) == self@.after(response@),
    {
        let Delivery { max_retries, failed, last_error } = self;
        match describe(response) {
            None => (Delivery { max_retries, failed, last_error }, Action::Delivered),
            Some(why) => {
                if failed < max_retries {
                    (
                        Delivery { max_retries, failed: failed + 1, last_error: Some(why) },
                        Action::Send { delay_secs: backoff_secs(failed + 1) },
                    )
                } else {
                    let last = Some(why);
                    let message = String::from_str("Webhook failed after ").concat(
                        decimal_text(max_retries as u64 + 1).as_str(),
                    ).concat(" attempts: ").concat(debug_text(&last).as_str());
                    (Delivery { max_retries, failed, last_error: last }, Action::GiveUp(message))
                }
            },
        }
    }
}

} // verus!
