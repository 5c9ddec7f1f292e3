//! Chat panel state: submitted questions, replies, and what is sent to the
//! assistant.

use std::time::SystemTime;
use vstd::prelude::*;

verus! {

/// `std::time::SystemTime`, carried without inspection.
#[verifier::external_type_specification]
#[verifier::external_body]
pub struct ExSystemTime(SystemTime);

/// `SystemTime::now()`. Nothing is stated of its value.
#[verifier::external_body]
fn system_now() -> SystemTime {
    SystemTime::now()
}

/// Whether `c` has the Unicode `White_Space` property, the whitespace that
/// `str::trim` removes.
pub open spec fn is_white_space(c: char) -> bool {
    let u = c as u32;
    ||| 0x09 <= u <= 0x0D
    ||| u == 0x20
    ||| u == 0x85
    ||| u == 0xA0
    ||| u == 0x1680
    ||| 0x2000 <= u <= 0x200A
    ||| u == 0x2028
    ||| u == 0x2029
    ||| u == 0x202F
    ||| u == 0x205F
    ||| u == 0x3000
}

/// Number of white-space characters at the start of `s`.
pub open spec fn leading_space(s: Seq<char>) -> nat
    decreases s.len(),
{
    if s.len() > 0 && is_white_space(s[0]) {
        1 + leading_space(s.drop_first())
    } else {
        0
    }
}

/// Number of white-space characters at the end of `s`.
pub open spec fn trailing_space(s: Seq<char>) -> nat
    decreases s.len(),
{
    if s.len() > 0 && is_white_space(s.last()) {
        1 + trailing_space(s.drop_last())
    } else {
        0
    }
}

/// `s` without its leading and trailing white space.
pub open spec fn trimmed(s: Seq<char>) -> Seq<char> {
    let rest = s.subrange(leading_space(s) as int, s.len() as int);
    rest.subrange(0, rest.len() - trailing_space(rest))
}

/// `str::trim`: the input without leading and trailing characters of the
/// Unicode `White_Space` property, as its documentation states.
#[verifier::external_body]
fn trim(s: &str) -> (t: &str)
    ensures
        t@ == trimmed(s@),
{
    s.trim()
}

/// One chat message.
#[derive(Debug)]
pub struct ChatMessage {
    /// Text.
    pub content: String,
    /// Whether the user wrote it (otherwise the assistant).
    pub is_user: bool,
    /// When it was added.
    pub timestamp: SystemTime,
}

/// The conversation.
#[derive(Debug)]
pub struct ChatState {
    /// Messages in order.
    pub messages: Vec<ChatMessage>,
    /// Whether a reply is awaited.
    pub is_waiting: bool,
    /// Chart context to prepend to the next question, if any.
    pub chart_context: Option<String>,
}

impl Default for ChatState {
    fn default() -> (state: Self)
        ensures
            state.messages@.len() == 0,
            !state.is_waiting,
            state.chart_context is None,
    {
        ChatState { messages: Vec::new(), is_waiting: false, chart_context: None }
    }
}

/// The text sent for a question `content`, with the chart context if any.
pub open spec fn outgoing_text(context: Option<String>, content: Seq<char>) -> Seq<char> {
    match context {
        Some(c) => "[Context: "@ + c@ + "]\n\nUser: "@ + content,
        None => content,
    }
}

/// Label shown before a message.
pub open spec fn prefix_text(is_user: bool) -> Seq<char> {
    if is_user {
        "You: "@
    } else {
        "Assistant: "@
    }
}

/// Label shown before a message: "You: " or "Assistant: ".
pub fn message_prefix(is_user: bool) -> (prefix: &'static str)
    ensures
        prefix@ == prefix_text(is_user),
{
    if is_user {
        "You: "
    } else {
        "Assistant: "
    }
}

/// Adds a submitted question: the text without surrounding whitespace, as
/// a user message, then waits for a reply. Blank text is ignored.
/// Returns whether a message was added.
pub fn handle_text_submit(state: &mut ChatState, text: &str) -> (added: bool)
    ensures
        added == (trimmed(text@).len() > 0),
        !added ==> final(state).messages@ == old(state).messages@ && final(state).is_waiting
            == old(state).is_waiting,
        added ==> {
            &&& final(state).messages@.len() == old(state).messages@.len() + 1
            &&& final(state).messages@.drop_last() == old(state).messages@
            &&& final(state).messages@.last().content@ == trimmed(text@)
            &&& final(state).messages@.last().is_user
            &&& final(state).is_waiting
        },
        final(state).chart_context == old(state).chart_context,
{
    let trimmed = trim(text);
    if trimmed.is_empty() {
        return false;
    }
    state.messages.push(
        ChatMessage { content: String::from_str(trimmed), is_user: true, timestamp: system_now() },
    );
    state.is_waiting = true;
    true
}

/// Decides what to send to the assistant once new messages appeared since
/// `last_count`: the last message, if it is the user's and a reply is
/// awaited, prefixed by the chart context (which is then cleared).
/// `last_count` catches up with the message count.
pub fn send_to_claude(state: &mut ChatState, last_count: &mut usize) -> (outgoing: Option<String>)
    ensures
        final(state).messages@ == old(state).messages@,
        final(state).is_waiting == old(state).is_waiting,
        *final(last_count) == (if old(state).messages@.len() > *old(last_count) {
            old(state).messages@.len() as usize
        } else {
            *old(last_count)
        }),
        ({
            let n = old(state).messages@.len();
            let sends = n > *old(last_count) && old(state).messages@.last().is_user
                && old(state).is_waiting;
            &&& sends <==> outgoing is Some
            &&& outgoing matches Some(text) ==> text@ == outgoing_text(
                old(state).chart_context,
                old(state).messages@.last().content@,
            )
            &&& sends ==> final(state).chart_context is None
            &&& !sends ==> final(state).chart_context == old(state).chart_context
        }),
{
    let current_count = state.messages.len();
    if current_count > *last_count {
        *last_count = current_count;
        let last = &state.messages[current_count - 1];
        if last.is_user && state.is_waiting {
            let message = match &state.chart_context {
                Some(context) => {
                    let mut m = String::from_str("[Context: ");
                    m.append(context.as_str());
                    m.append("]\n\nUser: ");
                    m.append(last.content.as_str());
                    m
                },
                None => last.content.clone(),
            };
            state.chart_context = None;
            return Some(message);
        }
    }
    None
}

/// Adds the assistant's reply and stops waiting.
pub fn receive_from_claude(state: &mut ChatState, response: String)
    ensures
        final(state).messages@.len() == old(state).messages@.len() + 1,
        final(state).messages@.drop_last() == old(state).messages@,
        final(state).messages@.last().content@ == response@,
        !final(state).messages@.last().is_user,
        !final(state).is_waiting,
        final(state).chart_context == old(state).chart_context,
{
    state.messages.push(ChatMessage { content: response, is_user: false, timestamp: system_now() });
    state.is_waiting = false;
}

/// Change to the "thinking" indicator shown below the messages.
#[derive(Debug, Clone, Copy, PartialEq, Eq, Structural)]
pub enum IndicatorChange {
    /// Add the indicator.
    Show,
    /// Remove the indicator.
    Hide,
    /// Leave it as it is.
    Keep,
}

/// What the message list must do to match the chat state: add entries for
/// the messages `first_new..end`, and change the indicator.
#[derive(Debug, Clone, Copy, PartialEq, Eq, Structural)]
pub struct DisplayPlan {
    /// First message without an entry.
    pub first_new: usize,
    /// One past the last message.
    pub end: usize,
    /// Indicator change.
    pub indicator: IndicatorChange,
}

/// Plans the update of a message list that shows `shown` entries and
/// possibly the indicator, for a chat of `message_count` messages: entries
/// are added for the messages not yet shown; the indicator is shown while a
/// reply is awaited and removed otherwise.
pub fn display_plan(message_count: usize, shown: usize, is_waiting: bool, indicator_shown: bool) -> (plan: DisplayPlan)
    ensures
        plan.end == message_count,
        plan.first_new == (if shown < message_count { shown } else { message_count }),
        plan.indicator == (if is_waiting {
            if indicator_shown { IndicatorChange::Keep } else { IndicatorChange::Show }
        } else if indicator_shown {
            IndicatorChange::Hide
        } else {
            IndicatorChange::Keep
        }),
{
    let first_new = if shown < message_count { shown } else { message_count };
    let indicator = if is_waiting {
        if indicator_shown { IndicatorChange::Keep } else { IndicatorChange::Show }
    } else if indicator_shown {
        IndicatorChange::Hide
    } else {
        IndicatorChange::Keep
    };
    DisplayPlan { first_new, end: message_count, indicator }
}

} // verus!
