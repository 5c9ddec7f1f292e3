//! Decisions of the assistant session loop: how the streamed pieces of one
//! reply are gathered into the text shown in the chat, and what is said when
//! sending or receiving fails. The session itself (the agent client, its
//! channels and the screenshot tool's HTTP call) is driven by the caller,
//! which hands each streamed item to [`read_reply_event`].

use vstd::prelude::*;

verus! {

/// Name of the chart screenshot tool offered to the assistant.
pub open spec fn screenshot_tool_name() -> Seq<char> {
    "take_chart_screenshot"@
}

/// Note inserted into the reply when the assistant takes a screenshot.
pub open spec fn screenshot_note() -> Seq<char> {
    "\n[Taking screenshot...]\n"@
}

/// One content block of an assistant message.
#[derive(Debug)]
pub enum ReplyBlock {
    /// Visible text.
    Text(String),
    /// Extended thinking, not shown.
    Thinking,
    /// A tool call; the tool's name.
    ToolUse(String),
    /// A tool's result, not shown.
    ToolResult,
}

/// One item of the streamed answer to a question.
#[derive(Debug)]
pub enum SessionEvent {
    /// An assistant message with its content blocks.
    Assistant(Vec<ReplyBlock>),
    /// The turn is complete.
    Finished,
    /// A system notification.
    System,
    /// A partial streaming update.
    Streaming,
    /// The echo of the user's message.
    UserEcho,
    /// Receiving failed; the error text.
    Failed(String),
}

/// Where reading one reply stands after an item.
#[derive(Debug, PartialEq, Eq)]
pub enum ReplyProgress {
    /// Keep reading.
    Reading,
    /// The reply is over; the text to post to the chat, if any.
    Done(Option<String>),
}

/// Visible text of one block.
pub open spec fn block_text(b: ReplyBlock) -> Seq<char> {
    match b {
        ReplyBlock::Text(t) => t@,
        ReplyBlock::ToolUse(name) => if name@ == screenshot_tool_name() {
            screenshot_note()
        } else {
            Seq::empty()
        },
        _ => Seq::empty(),
    }
}

/// Visible text of a message's blocks, in order.
pub open spec fn blocks_text(blocks: Seq<ReplyBlock>) -> Seq<char>
    decreases blocks.len(),
{
    if blocks.len() == 0 {
        Seq::empty()
    } else {
        blocks_text(blocks.drop_last()) + block_text(blocks.last())
    }
}

/// Text posted when receiving the reply failed with `error`.
pub open spec fn receive_failure_text(error: Seq<char>) -> Seq<char> {
    "Error: Failed to receive response ("@ + error + ")"@
}

/// Text posted when sending the question failed with `error`.
pub open spec fn send_failure_text(error: Seq<char>) -> Seq<char> {
    "Error: Failed to send message ("@ + error + ")"@
}

/// Text handed back by the screenshot tool once the image is saved.
pub open spec fn screenshot_saved_text(filename: Seq<char>) -> Seq<char> {
    "Screenshot successfully saved to: "@ + filename
        + "\n\nYou can now analyze this image to see the chart's visual state."@
}

/// Whether a tool name is the screenshot tool.
fn is_screenshot_tool(name: &String) -> (yes: bool)
    ensures
        yes == (name@ == screenshot_tool_name()),
{
    let tool = String::from_str("take_chart_screenshot");
    *name == tool
}

/// Appends the visible text of `blocks` to `reply`: text blocks as they
/// are, a note for each screenshot tool call, nothing for the rest.
pub fn append_blocks(reply: &mut String, blocks: &Vec<ReplyBlock>)
    ensures
        final(reply)@ == old(reply)@ + blocks_text(blocks@),
{
    let mut i: usize = 0;
    while i < blocks.len()
        invariant
            i <= blocks.len(),
            reply@ == old(reply)@ + blocks_text(blocks@.take(i as int)),
        decreases blocks.len() - i,
    {
        assert(blocks@.take(i + 1).drop_last() =~= blocks@.take(i as int));
        match &blocks[i] {
            ReplyBlock::Text(t) => reply.append(t.as_str()),
            ReplyBlock::ToolUse(name) => {
                if is_screenshot_tool(name) {
                    reply.append("\n[Taking screenshot...]\n");
                } else {
                    proof {
                        reveal_strlit("");
                    }
                }
            },
            _ => {},
        }
        assert(reply@ == old(reply)@ + blocks_text(blocks@.take(i + 1)));
        i = i + 1;
    }
    assert(blocks@.take(blocks.len() as int) =~= blocks@);
}

/// One step of reading a reply. Assistant text accumulates in `reply`; when
/// the turn completes the accumulated text is posted (nothing when it is
/// empty); when receiving fails an error text is posted in its place.
/// Other items change nothing.
pub fn read_reply_event(reply: &mut String, event: SessionEvent) -> (progress: ReplyProgress)
    ensures
        match event {
            SessionEvent::Assistant(blocks) => final(reply)@ == old(reply)@ + blocks_text(blocks@)
                && progress == ReplyProgress::Reading,
            SessionEvent::Finished => match progress {
                ReplyProgress::Done(Some(text)) => old(reply)@.len() > 0 && text@ == old(reply)@,
                ReplyProgress::Done(None) => old(reply)@.len() == 0,
                ReplyProgress::Reading => false,
            },
            SessionEvent::Failed(e) => match progress {
                ReplyProgress::Done(Some(text)) => text@ == receive_failure_text(e@),
                _ => false,
            },
            _ => final(reply)@ == old(reply)@ && progress == ReplyProgress::Reading,
        },
{
    match event {
        SessionEvent::Assistant(blocks) => {
            append_blocks(reply, &blocks);
            ReplyProgress::Reading
        },
        SessionEvent::Finished => {
            if reply.as_str().is_empty() {
                ReplyProgress::Done(None)
            } else {
                let text = reply.clone();
                ReplyProgress::Done(Some(text))
            }
        },
        SessionEvent::Failed(e) => {
            let mut text = String::from_str("Error: Failed to receive response (");
            text.append(e.as_str());
            text.append(")");
            ReplyProgress::Done(Some(text))
        },
        _ => ReplyProgress::Reading,
    }
}

/// The chat text for a question that could not be sent.
pub fn send_failure_reply(error: &str) -> (text: String)
    ensures
        text@ == send_failure_text(error@),
{
    let mut text = String::from_str("Error: Failed to send message (");
    text.append(error);
    text.append(")");
    text
}

/// The screenshot tool's answer once the image is saved as `filename`.
pub fn screenshot_saved_reply(filename: &str) -> (text: String)
    ensures
        text@ == screenshot_saved_text(filename@),
{
    let mut text = String::from_str("Screenshot successfully saved to: ");
    text.append(filename);
    text.append("\n\nYou can now analyze this image to see the chart's visual state.");
    text
}

} // verus!
