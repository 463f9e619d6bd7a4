//! Alerts that ask the user for a decision.

use vstd::prelude::*;

verus! {

#[derive(Clone, Copy, Debug, PartialEq, Eq, Structural)]
pub enum PromptLevel {
    Info,
    Warning,
    Critical,
}

/// The styles that AppKit has for alerts.
#[derive(Clone, Copy, Debug, PartialEq, Eq, Structural)]
pub enum AlertStyle {
    Warning,
    Informational,
    Critical,
}

/// An answer that a prompt offers.
pub enum PromptButton {
    Confirm(String),
    Cancel(String),
    Other(String),
}

/// A button of an alert.
pub struct AlertButton {
    pub title: String,
    /// The index of the answer, by which the alert reports it.
    pub tag: usize,
    /// The escape key presses the button.
    pub escape: bool,
}

/// The view of an [`AlertButton`].
pub struct AlertButtonView {
    pub title: Seq<char>,
    pub tag: int,
    pub escape: bool,
}

impl View for AlertButton {
    type V = AlertButtonView;

    open spec fn view(&self) -> AlertButtonView {
        AlertButtonView { title: self.title@, tag: self.tag as int, escape: self.escape }
    }
}

/// An alert to show.
pub struct Alert {
    pub style: AlertStyle,
    pub message: String,
    pub detail: Option<String>,
    pub buttons: Vec<AlertButton>,
    /// The button that has the keyboard focus at first, if it is not the one that AppKit gives it
    /// to.
    pub initial_focus: Option<usize>,
}

/// The style for a level.
pub open spec fn style_for(level: PromptLevel) -> AlertStyle {
    match level {
        PromptLevel::Info => AlertStyle::Informational,
        PromptLevel::Warning => AlertStyle::Warning,
        PromptLevel::Critical => AlertStyle::Critical,
    }
}

/// Computes [`style_for`].
pub fn alert_style(level: PromptLevel) -> (style: AlertStyle)
    ensures
        style == style_for(level),
{
    match level {
        PromptLevel::Info => AlertStyle::Informational,
        PromptLevel::Warning => AlertStyle::Warning,
        PromptLevel::Critical => AlertStyle::Critical,
    }
}

impl PromptButton {
    pub open spec fn spec_is_cancel(&self) -> bool {
        self is Cancel
    }

    pub open spec fn text(&self) -> Seq<char> {
        match *self {
            PromptButton::Confirm(label) => label@,
            PromptButton::Cancel(label) => label@,
            PromptButton::Other(label) => label@,
        }
    }

    /// Whether the button cancels the prompt.
    #[verifier::when_used_as_spec(spec_is_cancel)]
    pub fn is_cancel(&self) -> (result: bool)
        ensures
            result == self.spec_is_cancel(),
    {
        match self {
            PromptButton::Cancel(_) => true,
            _ => false,
        }
    }

    /// The label of the button.
    pub fn label(&self) -> (label: &String)
        ensures
            label@ == self.text(),
    {
        match self {
            PromptButton::Confirm(label) => label,
            PromptButton::Cancel(label) => label,
            PromptButton::Other(label) => label,
        }
    }
}

/// The index of the last of the first `n` answers that is not a cancel button.
pub open spec fn last_choice(answers: Seq<PromptButton>, n: int) -> Option<int>
    decreases n,
{
    if n <= 0 {
        None
    } else if !answers[n - 1].is_cancel() {
        Some(n - 1)
    } else {
        last_choice(answers, n - 1)
    }
}

/// The answer that gets the keyboard focus: the last one that neither cancels nor is the default,
/// which the return key presses. AppKit would give the focus to the cancel button, which leaves
/// the answer in the middle of "Save / Don't Save / Cancel" out of the keyboard's reach.
pub open spec fn focused_answer(answers: Seq<PromptButton>) -> Option<int> {
    match last_choice(answers, answers.len() as int) {
        Some(i) if i > 0 => Some(i),
        _ => None,
    }
}

/// The button for an answer.
pub open spec fn button_for(answers: Seq<PromptButton>, i: int) -> AlertButtonView {
    AlertButtonView { title: answers[i].text(), tag: i, escape: answers[i].is_cancel() }
}

/// The index of the answer that gets the keyboard focus; see [`focused_answer`].
pub fn initial_focus(answers: &[PromptButton]) -> (result: Option<usize>)
    ensures
        match result {
            Some(i) => focused_answer(answers@) == Some(i as int),
            None => focused_answer(answers@) is None,
        },
{
    let mut n: usize = answers.len();
    while n > 0
        invariant
            n <= answers@.len(),
            last_choice(answers@, n as int) == last_choice(answers@, answers@.len() as int),
        decreases n,
    {
        if !answers[n - 1].is_cancel() {
            return if n - 1 > 0 {
                Some(n - 1)
            } else {
                None
            };
        }
        n -= 1;
    }
    None
}

/// The alert for a prompt.
pub fn prompt(
    level: PromptLevel,
    message: &str,
    detail: Option<&str>,
    answers: &[PromptButton],
) -> (alert: Alert)
    ensures
        alert.style == style_for(level),
        alert.message@ == message@,
        match (detail, alert.detail) {
            (Some(detail), Some(shown)) => shown@ == detail@,
            (None, None) => true,
            _ => false,
        },
        alert.buttons@.len() == answers@.len(),
        forall|i: int|
            0 <= i < answers@.len() ==> (#[trigger] alert.buttons@[i])@ == button_for(answers@, i),
        match alert.initial_focus {
            Some(i) => focused_answer(answers@) == Some(i as int),
            None => focused_answer(answers@) is None,
        },
{
    let mut buttons: Vec<AlertButton> = Vec::new();
    let mut i: usize = 0;
    while i < answers.len()
        invariant
            i <= answers@.len(),
            buttons@.len() == i,
            forall|j: int| 0 <= j < i ==> (#[trigger] buttons@[j])@ == button_for(answers@, j),
        decreases answers@.len() - i,
    {
        buttons.push(
            AlertButton {
                title: answers[i].label().clone(),
                tag: i,
                escape: answers[i].is_cancel(),
            },
        );
        i += 1;
    }
    Alert {
        style: alert_style(level),
        message: message.to_string(),
        detail: match detail {
            Some(detail) => Some(detail.to_string()),
            None => None,
        },
        buttons,
        initial_focus: initial_focus(answers),
    }
}

/// Who is told of an answer, and which.
pub open spec fn passed_on(waiting: Option<u64>, answer: i64) -> Option<(u64, usize)> {
    match waiting {
        Some(receiver) => Some((receiver, answer as usize)),
        None => None,
    }
}

/// The alert reports an answer. It is passed on to `waiting`, whoever waits for it, once.
pub fn answer_prompt(waiting: &mut Option<u64>, answer: i64) -> (result: Option<(u64, usize)>)
    requires
        *old(waiting) is Some ==> 0 <= answer <= usize::MAX,
    ensures
        *final(waiting) is None,
        result == passed_on(*old(waiting), answer),
        result == match *old(waiting) {
            Some(receiver) => Some((receiver, answer as usize)),
            None => None,
        },
{
    match waiting.take() {
        Some(receiver) => Some((receiver, answer as usize)),
        None => None,
    }
}

/// The answer with the keyboard focus neither cancels nor is the default, and every answer after
/// it cancels.
pub proof fn focus_is_on_the_last_alternative(answers: Seq<PromptButton>)
    ensures
        match focused_answer(answers) {
            Some(i) => {
                &&& 0 < i < answers.len()
                &&& !answers[i].is_cancel()
                &&& forall|j: int| i < j < answers.len() ==> (#[trigger] answers[j]).is_cancel()
            },
            None => forall|j: int| 0 < j < answers.len() ==> (#[trigger] answers[j]).is_cancel(),
        },
{
    lemma_last_choice(answers, answers.len() as int);
}

proof fn lemma_last_choice(answers: Seq<PromptButton>, n: int)
    requires
        0 <= n <= answers.len(),
    ensures
        match last_choice(answers, n) {
            Some(i) => {
                &&& 0 <= i < n
                &&& !answers[i].is_cancel()
                &&& forall|j: int| i < j < n ==> (#[trigger] answers[j]).is_cancel()
            },
            None => forall|j: int| 0 <= j < n ==> (#[trigger] answers[j]).is_cancel(),
        },
    decreases n,
{
    if n > 0 {
        lemma_last_choice(answers, n - 1);
    }
}

/// The tag of a button leads back to its answer: reporting it passes on that answer's index.
pub proof fn tags_lead_back_to_answers(answers: Seq<PromptButton>, i: int, j: int)
    requires
        0 <= i < answers.len(),
        0 <= j < answers.len(),
    ensures
        button_for(answers, i).tag == button_for(answers, j).tag <==> i == j,
        answers[button_for(answers, i).tag].text() == button_for(answers, i).title,
{
}

/// An alert looks as serious as its prompt is.
pub proof fn alerts_are_as_serious_as_their_prompt(level: PromptLevel)
    ensures
        style_for(level) == AlertStyle::Critical <==> level == PromptLevel::Critical,
        style_for(level) == AlertStyle::Warning <==> level == PromptLevel::Warning,
        style_for(level) == AlertStyle::Informational <==> level == PromptLevel::Info,
{
}

/// Every answer has its button, with its label and its index, and escape presses exactly those that
/// cancel.
pub proof fn buttons_are_those_of_the_answers(answers: Seq<PromptButton>, i: int)
    requires
        0 <= i < answers.len(),
    ensures
        ({
            let button = button_for(answers, i);
            &&& button.tag == i
            &&& button.escape == (answers[i] is Cancel)
            &&& answers[i] matches PromptButton::Confirm(label) ==> button.title == label@
            &&& answers[i] matches PromptButton::Cancel(label) ==> button.title == label@
            &&& answers[i] matches PromptButton::Other(label) ==> button.title == label@
        }),
{
}

/// The answer with the keyboard focus is the last one that does not cancel, unless that is the
/// first of all.
pub proof fn focus_is_on_the_last_answer_that_does_not_cancel(answers: Seq<PromptButton>, i: int)
    requires
        0 <= i < answers.len(),
        !(answers[i] is Cancel),
        forall|j: int| i < j < answers.len() ==> (#[trigger] answers[j]) is Cancel,
    ensures
        i > 0 ==> focused_answer(answers) == Some(i),
        i == 0 ==> focused_answer(answers) is None,
{
    lemma_last_choice(answers, answers.len() as int);
    if let Some(k) = last_choice(answers, answers.len() as int) {
        if k < i {
            assert(answers[i].is_cancel());
        } else if k > i {
            assert(answers[k] is Cancel);
        }
    } else {
        assert(answers[i].is_cancel());
    }
}

/// Whoever waits is told the answer that was given; when nobody waits, nobody is told.
pub proof fn answers_reach_whoever_waits(receiver: u64, answer: usize)
    requires
        answer <= i64::MAX,
    ensures
        passed_on(Some(receiver), answer as i64) == Some((receiver, answer)),
        passed_on(None, answer as i64) is None,
{
}

} // verus!
