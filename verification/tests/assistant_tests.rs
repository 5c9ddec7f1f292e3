use charts::assistant::{
    append_blocks, read_reply_event, screenshot_saved_reply, send_failure_reply, ReplyBlock,
    ReplyProgress, SessionEvent,
};

#[test]
fn reply_text_accumulates_until_the_turn_ends() {
    let mut reply = String::new();
    let first = read_reply_event(
        &mut reply,
        SessionEvent::Assistant(vec![
            ReplyBlock::Thinking,
            ReplyBlock::Text("The trend ".to_string()),
            ReplyBlock::ToolUse("take_chart_screenshot".to_string()),
            ReplyBlock::ToolResult,
        ]),
    );
    assert_eq!(first, ReplyProgress::Reading);
    assert_eq!(read_reply_event(&mut reply, SessionEvent::System), ReplyProgress::Reading);
    assert_eq!(read_reply_event(&mut reply, SessionEvent::Streaming), ReplyProgress::Reading);
    assert_eq!(read_reply_event(&mut reply, SessionEvent::UserEcho), ReplyProgress::Reading);
    let second = read_reply_event(
        &mut reply,
        SessionEvent::Assistant(vec![ReplyBlock::Text("is up.".to_string())]),
    );
    assert_eq!(second, ReplyProgress::Reading);
    assert_eq!(reply, "The trend \n[Taking screenshot...]\nis up.");
    assert_eq!(
        read_reply_event(&mut reply, SessionEvent::Finished),
        ReplyProgress::Done(Some("The trend \n[Taking screenshot...]\nis up.".to_string()))
    );
}

#[test]
fn other_tools_add_nothing() {
    let mut reply = String::from("a");
    append_blocks(&mut reply, &vec![ReplyBlock::ToolUse("other_tool".to_string()), ReplyBlock::Text("b".to_string())]);
    assert_eq!(reply, "ab");
}

#[test]
fn empty_reply_posts_nothing() {
    let mut reply = String::new();
    assert_eq!(read_reply_event(&mut reply, SessionEvent::Finished), ReplyProgress::Done(None));
}

#[test]
fn receive_failure_posts_error_text() {
    let mut reply = String::from("partial");
    assert_eq!(
        read_reply_event(&mut reply, SessionEvent::Failed("timeout".to_string())),
        ReplyProgress::Done(Some("Error: Failed to receive response (timeout)".to_string()))
    );
}

#[test]
fn send_failure_text() {
    assert_eq!(send_failure_reply("closed"), "Error: Failed to send message (closed)");
}

#[test]
fn screenshot_tool_answer() {
    assert_eq!(
        screenshot_saved_reply("screenshot-0001.png"),
        "Screenshot successfully saved to: screenshot-0001.png\n\nYou can now analyze this image to see the chart's visual state."
    );
}
