//! What a workflow tells the user.

use vstd::prelude::*;
use vstd::string::*;

verus! {

/// One line for the user. Progress and failures carry the program's marker
/// when printed; a plain line is printed as it is.
#[derive(Debug)]
pub enum Message {
    /// A step that succeeded.
    Info(String),
    /// A step that failed.
    Error(String),
    /// A line of a result, such as a row of a table.
    Plain(String),
}

/// The mathematical value of a [`Message`].
pub enum MessageView {
    Info(Seq<char>),
    Error(Seq<char>),
    Plain(Seq<char>),
}

impl MessageView {
    /// The text of the line, without any marker.
    pub open spec fn text(self) -> Seq<char> {
        match self {
            MessageView::Info(text) => text,
            MessageView::Error(text) => text,
            MessageView::Plain(text) => text,
        }
    }
}

impl DeepView for Message {
    type V = MessageView;

    open spec fn deep_view(&self) -> MessageView {
        match self {
            Message::Info(text) => MessageView::Info(text@),
            Message::Error(text) => MessageView::Error(text@),
            Message::Plain(text) => MessageView::Plain(text@),
        }
    }
}

impl View for Message {
    type V = MessageView;

    open spec fn view(&self) -> MessageView {
        self.deep_view()
    }
}

impl Message {
    /// The text of the line, without any marker.
    pub fn text(&self) -> (text: &str)
        ensures
            text@ == self@.text(),
    {
        match self {
            Message::Info(text) => text.as_str(),
            Message::Error(text) => text.as_str(),
            Message::Plain(text) => text.as_str(),
        }
    }

    /// Whether the line reports a failure.
    pub fn is_error(&self) -> (failed: bool)
        ensures
            failed == (self@ is Error),
    {
        match self {
            Message::Error(_) => true,
            _ => false,
        }
    }
}

/// What the user is told when a workflow is handed an event that the
/// pending action cannot have produced.
pub open spec fn unexpected_event_message() -> Seq<char> {
    "Unexpected event"@
}

/// No lines.
pub fn no_messages() -> (lines: Vec<Message>)
    ensures
        lines.deep_view() == Seq::<MessageView>::empty(),
{
    let lines: Vec<Message> = Vec::new();
    assert(lines.deep_view() =~= Seq::<MessageView>::empty());
    lines
}

/// One line.
pub fn one_message(line: Message) -> (lines: Vec<Message>)
    ensures
        lines.deep_view() == seq![line@],
{
    let mut lines: Vec<Message> = Vec::new();
    lines.push(line);
    assert(lines.deep_view() =~= seq![line@]);
    lines
}

/// Two lines, in this order.
pub fn two_messages(first: Message, second: Message) -> (lines: Vec<Message>)
    ensures
        lines.deep_view() == seq![first@, second@],
{
    let mut lines: Vec<Message> = Vec::new();
    lines.push(first);
    lines.push(second);
    assert(lines.deep_view() =~= seq![first@, second@]);
    lines
}

} // verus!
