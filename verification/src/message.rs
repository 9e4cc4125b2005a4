//! Diagnostic texts as data. The front end never formats or looks up a
//! text: it says which catalogue entry is meant and with which
//! arguments, and the host renders it in the user's language.

use vstd::prelude::*;

verus! {

/// A text for the host to render.
#[derive(Debug, PartialEq, Eq)]
pub enum Message {
    /// Text that is shown as it stands.
    Text(String),
    /// An entry of the message catalogue, looked up by `key` with named
    /// arguments; `default_value` is shown where the catalogue has no
    /// such entry.
    Entry { key: String, args: Vec<MessageArg>, default_value: Option<String> },
    /// Two texts, shown one after the other.
    Joined(Box<Message>, Box<Message>),
}

/// A named argument of a catalogue entry.
#[derive(Debug, PartialEq, Eq)]
pub struct MessageArg {
    /// The name by which the entry refers to the argument.
    pub name: String,
    /// What is handed to the entry under that name.
    pub value: MessageValue,
}

/// The value of an argument.
#[derive(Debug, PartialEq, Eq)]
pub enum MessageValue {
    /// No value.
    Absent,
    /// A count.
    Number(usize),
    /// A text, rendered before it is handed to the entry.
    Message(Message),
}

/// The mathematical content of a [`Message`].
pub ghost enum MessageView {
    Text(Seq<char>),
    Entry { key: Seq<char>, args: Seq<MessageArgView>, default_value: Option<Seq<char>> },
    Joined(Box<MessageView>, Box<MessageView>),
}

/// The mathematical content of a [`MessageArg`].
pub ghost struct MessageArgView {
    pub name: Seq<char>,
    pub value: MessageValueView,
}

/// The mathematical content of a [`MessageValue`].
pub ghost enum MessageValueView {
    Absent,
    Number(usize),
    Message(Box<MessageView>),
}

/// The content of a message.
pub open spec fn message_view(message: Message) -> MessageView
    decreases message,
{
    match message {
        Message::Text(text) => MessageView::Text(text@),
        Message::Entry { key, args, default_value } => MessageView::Entry {
            key: key@,
            args: Seq::new(
                args@.len(),
                |i: int|
                    if 0 <= i < args@.len() {
                        message_arg_view(args@[i])
                    } else {
                        MessageArgView { name: Seq::empty(), value: MessageValueView::Absent }
                    },
            ),
            default_value: match default_value {
                Some(text) => Some(text@),
                None => None,
            },
        },
        Message::Joined(first, second) => MessageView::Joined(
            Box::new(message_view(*first)),
            Box::new(message_view(*second)),
        ),
    }
}

/// The content of an argument.
pub open spec fn message_arg_view(arg: MessageArg) -> MessageArgView
    decreases arg,
{
    MessageArgView { name: arg.name@, value: message_value_view(arg.value) }
}

/// The content of an argument's value.
pub open spec fn message_value_view(value: MessageValue) -> MessageValueView
    decreases value,
{
    match value {
        MessageValue::Absent => MessageValueView::Absent,
        MessageValue::Number(count) => MessageValueView::Number(count),
        MessageValue::Message(message) => MessageValueView::Message(Box::new(message_view(message))),
    }
}

/// The contents of a list of arguments.
pub open spec fn message_args_view(args: Seq<MessageArg>) -> Seq<MessageArgView> {
    Seq::new(args.len(), |i: int| message_arg_view(args[i]))
}

impl DeepView for Message {
    type V = MessageView;

    open spec fn deep_view(&self) -> MessageView {
        message_view(*self)
    }
}

impl DeepView for MessageArg {
    type V = MessageArgView;

    open spec fn deep_view(&self) -> MessageArgView {
        message_arg_view(*self)
    }
}

/// The content of a text argument: the text as it stands.
pub open spec fn text_arg(name: Seq<char>, text: Seq<char>) -> MessageArgView {
    MessageArgView { name, value: MessageValueView::Message(Box::new(MessageView::Text(text))) }
}

/// The content of an argument that is itself a message.
pub open spec fn message_arg(name: Seq<char>, message: MessageView) -> MessageArgView {
    MessageArgView { name, value: MessageValueView::Message(Box::new(message)) }
}

/// The content of a count argument.
pub open spec fn number_arg(name: Seq<char>, count: usize) -> MessageArgView {
    MessageArgView { name, value: MessageValueView::Number(count) }
}

/// The content of a catalogue entry without a default.
pub open spec fn entry(key: Seq<char>, args: Seq<MessageArgView>) -> MessageView {
    MessageView::Entry { key, args, default_value: None }
}

impl MessageArg {
    /// An argument whose value is a text.
    pub fn text(name: &str, text: String) -> (arg: MessageArg)
        ensures
            arg.deep_view() == text_arg(name@, text@),
    {
        MessageArg { name: name.to_string(), value: MessageValue::Message(Message::Text(text)) }
    }

    /// An argument whose value is a message.
    pub fn message(name: &str, message: Message) -> (arg: MessageArg)
        ensures
            arg.deep_view() == message_arg(name@, message.deep_view()),
    {
        MessageArg { name: name.to_string(), value: MessageValue::Message(message) }
    }

    /// An argument whose value is a count.
    pub fn number(name: &str, count: usize) -> (arg: MessageArg)
        ensures
            arg.deep_view() == number_arg(name@, count),
    {
        MessageArg { name: name.to_string(), value: MessageValue::Number(count) }
    }

    /// An argument that is named and has no value.
    pub fn absent(name: &str) -> (arg: MessageArg)
        ensures
            arg.deep_view() == (MessageArgView { name: name@, value: MessageValueView::Absent }),
    {
        MessageArg { name: name.to_string(), value: MessageValue::Absent }
    }
}

impl Message {
    /// A text that is shown as it stands.
    pub fn text(text: &str) -> (message: Message)
        ensures
            message.deep_view() == MessageView::Text(text@),
    {
        Message::Text(text.to_string())
    }

    /// The catalogue entry `key` with the given arguments and no default.
    pub fn entry(key: &str, args: Vec<MessageArg>) -> (message: Message)
        ensures
            message.deep_view() == entry(key@, message_args_view(args@)),
    {
        let message = Message::Entry { key: key.to_string(), args, default_value: None };
        proof {
            assert(message.deep_view()->Entry_args =~= message_args_view(args@));
        }
        message
    }

    /// The catalogue entry `key` with the given arguments, and the text
    /// to show where the catalogue lacks the entry.
    pub fn entry_or(key: String, args: Vec<MessageArg>, default_value: String) -> (message: Message)
        ensures
            message.deep_view() == (MessageView::Entry {
                key: key@,
                args: message_args_view(args@),
                default_value: Some(default_value@),
            }),
    {
        let message = Message::Entry { key, args, default_value: Some(default_value) };
        proof {
            assert(message.deep_view()->Entry_args =~= message_args_view(args@));
        }
        message
    }

    /// `first` followed by `second`.
    pub fn joined(first: Message, second: Message) -> (message: Message)
        ensures
            message.deep_view() == MessageView::Joined(
                Box::new(first.deep_view()),
                Box::new(second.deep_view()),
            ),
    {
        Message::Joined(Box::new(first), Box::new(second))
    }
}

impl Clone for Message {
    /// The same message.
    fn clone(&self) -> (message: Message)
        ensures
            message.deep_view() == self.deep_view(),
        decreases self,
    {
        match self {
            Message::Text(text) => Message::Text(text.clone()),
            Message::Entry { key, args, default_value } => {
                let mut copies: Vec<MessageArg> = Vec::new();
                let mut i: usize = 0;
                while i < args.len()
                    invariant
                        i <= args.len(),
                        copies@.len() == i,
                        self matches Message::Entry { args: own, .. } && own == args,
                        forall|j: int|
                            0 <= j < i ==> message_arg_view(#[trigger] copies@[j])
                                == message_arg_view(args@[j]),
                    decreases args.len() - i,
                {
                    let value = match &args[i].value {
                        MessageValue::Absent => MessageValue::Absent,
                        MessageValue::Number(count) => MessageValue::Number(*count),
                        MessageValue::Message(message) => MessageValue::Message(message.clone()),
                    };
                    copies.push(MessageArg { name: args[i].name.clone(), value });
                    i += 1;
                }
                let default_copy = match default_value {
                    Some(text) => Some(text.clone()),
                    None => None,
                };
                let message = Message::Entry {
                    key: key.clone(),
                    args: copies,
                    default_value: default_copy,
                };
                proof {
                    assert(message.deep_view()->Entry_args =~= self.deep_view()->Entry_args);
                }
                message
            },
            Message::Joined(first, second) => Message::Joined(
                Box::new((**first).clone()),
                Box::new((**second).clone()),
            ),
        }
    }
}

/// A copy of a message that may be missing.
pub fn clone_message(message: &Option<Message>) -> (copy: Option<Message>)
    ensures
        copy.deep_view() == message.deep_view(),
{
    match message {
        Some(message) => Some(message.clone()),
        None => None,
    }
}

/// The contents of a list of arguments after one more is pushed.
pub proof fn lemma_args_view_push(args: Seq<MessageArg>, arg: MessageArg)
    ensures
        message_args_view(args.push(arg)) == message_args_view(args).push(message_arg_view(arg)),
{
    assert(message_args_view(args.push(arg)) =~= message_args_view(args).push(
        message_arg_view(arg),
    ));
}

} // verus!
