use charts::chat::{display_plan, DisplayPlan, IndicatorChange};
use charts::chat::{handle_text_submit, message_prefix, receive_from_claude, send_to_claude, ChatState};

#[test]
fn blank_submissions_are_ignored() {
    let mut state = ChatState::default();
    assert!(!handle_text_submit(&mut state, "   \n\t "));
    assert!(state.messages.is_empty());
    assert!(!state.is_waiting);
}

#[test]
fn submission_is_trimmed_and_waits_for_reply() {
    let mut state = ChatState::default();
    assert!(handle_text_submit(&mut state, "  what is the trend?  "));
    assert_eq!(state.messages.len(), 1);
    assert_eq!(state.messages[0].content, "what is the trend?");
    assert!(state.messages[0].is_user);
    assert!(state.is_waiting);
}

#[test]
fn question_is_sent_once_with_context() {
    let mut state = ChatState::default();
    state.chart_context = Some("BTCUSDT 1m".to_string());
    let mut last_count = 0usize;
    assert!(send_to_claude(&mut state, &mut last_count).is_none());
    handle_text_submit(&mut state, "hello");
    let sent = send_to_claude(&mut state, &mut last_count);
    assert_eq!(sent.as_deref(), Some("[Context: BTCUSDT 1m]\n\nUser: hello"));
    assert!(state.chart_context.is_none());
    assert_eq!(last_count, 1);
    assert!(send_to_claude(&mut state, &mut last_count).is_none());
}

#[test]
fn question_without_context_is_sent_verbatim() {
    let mut state = ChatState::default();
    let mut last_count = 0usize;
    handle_text_submit(&mut state, "hello");
    assert_eq!(send_to_claude(&mut state, &mut last_count).as_deref(), Some("hello"));
}

#[test]
fn reply_ends_waiting_and_is_not_resent() {
    let mut state = ChatState::default();
    let mut last_count = 0usize;
    handle_text_submit(&mut state, "hello");
    send_to_claude(&mut state, &mut last_count);
    receive_from_claude(&mut state, "hi there".to_string());
    assert_eq!(state.messages.len(), 2);
    assert!(!state.messages[1].is_user);
    assert_eq!(state.messages[1].content, "hi there");
    assert!(!state.is_waiting);
    assert!(send_to_claude(&mut state, &mut last_count).is_none());
    assert_eq!(last_count, 2);
}

#[test]
fn prefixes() {
    assert_eq!(message_prefix(true), "You: ");
    assert_eq!(message_prefix(false), "Assistant: ");
}

#[test]
fn display_plan_adds_new_messages_and_indicator() {
    assert_eq!(
        display_plan(3, 1, true, false),
        DisplayPlan { first_new: 1, end: 3, indicator: IndicatorChange::Show }
    );
    assert_eq!(
        display_plan(3, 3, true, true),
        DisplayPlan { first_new: 3, end: 3, indicator: IndicatorChange::Keep }
    );
    assert_eq!(
        display_plan(4, 3, false, true),
        DisplayPlan { first_new: 3, end: 4, indicator: IndicatorChange::Hide }
    );
    assert_eq!(
        display_plan(2, 5, false, false),
        DisplayPlan { first_new: 2, end: 2, indicator: IndicatorChange::Keep }
    );
}
