//! What the application shows to the user: messages, questions and passive
//! notifications. The library words them; the driver puts them on screen.

use vstd::prelude::*;

verus! {

/// How grave a message is.
#[derive(Clone, Copy, Debug, PartialEq, Eq, Structural)]
pub enum MessageKind {
    Info,
    Warning,
    Error,
}

/// A message that the user has to dismiss.
#[derive(Clone, Debug, PartialEq, Eq)]
pub struct Message {
    pub kind: MessageKind,
    pub title: String,
    pub text: String,
}

/// What a message says.
pub ghost struct MessageView {
    pub kind: MessageKind,
    pub title: Seq<char>,
    pub text: Seq<char>,
}

impl View for Message {
    type V = MessageView;

    open spec fn view(&self) -> MessageView {
        MessageView { kind: self.kind, title: self.title@, text: self.text@ }
    }
}

/// A question that the user accepts or declines.
#[derive(Clone, Debug, PartialEq, Eq)]
pub struct Prompt {
    pub title: String,
    pub text: String,
    /// Label of the button that accepts.
    pub accept: String,
    /// Label of the button that declines.
    pub decline: String,
}

/// What a question says.
pub ghost struct PromptView {
    pub title: Seq<char>,
    pub text: Seq<char>,
    pub accept: Seq<char>,
    pub decline: Seq<char>,
}

impl View for Prompt {
    type V = PromptView;

    open spec fn view(&self) -> PromptView {
        PromptView {
            title: self.title@,
            text: self.text@,
            accept: self.accept@,
            decline: self.decline@,
        }
    }
}

/// A notification that asks for no answer.
#[derive(Clone, Debug, PartialEq, Eq)]
pub struct Notification {
    pub title: String,
    pub body: String,
}

/// What a notification says.
pub ghost struct NotificationView {
    pub title: Seq<char>,
    pub body: Seq<char>,
}

impl View for Notification {
    type V = NotificationView;

    open spec fn view(&self) -> NotificationView {
        NotificationView { title: self.title@, body: self.body@ }
    }
}

/// The view of a message that may not be there.
pub open spec fn message_view(m: Option<Message>) -> Option<MessageView> {
    match m {
        Some(m) => Some(m@),
        None => None,
    }
}

/// The view of a notification that may not be there.
pub open spec fn notification_view(n: Option<Notification>) -> Option<NotificationView> {
    match n {
        Some(n) => Some(n@),
        None => None,
    }
}

/// The view of a text that may not be there.
pub open spec fn text_view(t: Option<String>) -> Option<Seq<char>> {
    match t {
        Some(t) => Some(t@),
        None => None,
    }
}

} // verus!
