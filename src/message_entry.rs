use crate::formatting::{format_message_content, format_spec, SpanModel, StyledSpan, TextEntity};
use vstd::prelude::*;

verus! {

/// When a message was sent, in seconds since the Unix epoch.
#[derive(Clone, Copy, Debug, PartialEq, Eq, Structural)]
pub struct DateTimeEntry {
    pub timestamp: i32,
}

/// How a timestamp is labelled, relative to the local day it is read on.
#[derive(Clone, Copy, Debug, PartialEq, Eq, Structural)]
pub enum TimeLabel {
    /// Sent today: shown as the time alone.
    Today,
    /// Sent the day before: shown as `Yesterday` and the time.
    Yesterday,
    /// Sent earlier: shown with the full date.
    Older,
}

pub open spec fn time_label_spec(message_day: i64, today: i64) -> TimeLabel {
    if message_day == today {
        TimeLabel::Today
    } else if message_day + 1 == today {
        TimeLabel::Yesterday
    } else {
        TimeLabel::Older
    }
}

impl DateTimeEntry {
    /// The label of a message sent on local day `message_day`, read on local
    /// day `today` (days counted from any fixed origin).
    pub fn time_label(message_day: i64, today: i64) -> (r: TimeLabel)
        ensures
            r == time_label_spec(message_day, today),
    {
        if message_day == today {
            TimeLabel::Today
        } else if (message_day as i128) + 1 == (today as i128) {
            TimeLabel::Yesterday
        } else {
            TimeLabel::Older
        }
    }
}

/// Lines joined into one text, with a newline between each two.
pub open spec fn join_lines(ls: Seq<Seq<char>>) -> Seq<char>
    decreases ls.len(),
{
    if ls.len() == 0 {
        Seq::empty()
    } else if ls.len() == 1 {
        ls[0]
    } else {
        join_lines(ls.drop_last()) + seq!['\n'] + ls.last()
    }
}

/// The texts of styled lines.
pub open spec fn line_texts(lines: Seq<SpanModel>) -> Seq<Seq<char>> {
    lines.map_values(|l: SpanModel| l.text)
}

/// Who sent a message: a user or a chat, by id.
#[derive(Clone, Copy, Debug, PartialEq, Eq, Structural)]
pub enum MessageSender {
    User(i64),
    Chat(i64),
}

/// A message as a chat window shows it: its text is held line by line.
pub struct MessageEntry {
    id: i64,
    sender_id: MessageSender,
    message_content: Vec<StyledSpan>,
    timestamp: DateTimeEntry,
    is_edited: bool,
}

/// The mathematical value of a message.
pub struct MessageView {
    pub id: i64,
    pub sender_id: MessageSender,
    pub lines: Seq<SpanModel>,
    pub timestamp: DateTimeEntry,
    pub is_edited: bool,
}

impl View for MessageEntry {
    type V = MessageView;

    closed spec fn view(&self) -> MessageView {
        MessageView {
            id: self.id,
            sender_id: self.sender_id,
            lines: self.message_content@.map_values(|l: StyledSpan| l@),
            timestamp: self.timestamp,
            is_edited: self.is_edited,
        }
    }
}

impl MessageEntry {
    /// A message with no text.
    pub fn new(id: i64, sender_id: MessageSender, timestamp: DateTimeEntry, is_edited: bool) -> (r:
        MessageEntry)
        ensures
            r@ == (MessageView {
                id,
                sender_id,
                lines: Seq::<SpanModel>::empty(),
                timestamp,
                is_edited,
            }),
    {
        let r = MessageEntry {
            id,
            sender_id,
            message_content: Vec::new(),
            timestamp,
            is_edited,
        };
        assert(r@.lines =~= Seq::<SpanModel>::empty());
        r
    }

    pub fn id(&self) -> (r: i64)
        ensures
            r == self@.id,
    {
        self.id
    }

    pub fn timestamp(&self) -> (r: &DateTimeEntry)
        ensures
            *r == self@.timestamp,
    {
        &self.timestamp
    }

    /// The id of the user or chat that sent the message.
    pub fn sender_id(&self) -> (r: i64)
        ensures
            r == match self@.sender_id {
                MessageSender::User(u) => u,
                MessageSender::Chat(c) => c,
            },
    {
        match self.sender_id {
            MessageSender::User(user_id) => user_id,
            MessageSender::Chat(chat_id) => chat_id,
        }
    }

    /// The text of the message: its lines joined by newlines.
    pub fn message_content_to_string(&self) -> (r: String)
        ensures
            r@ == join_lines(line_texts(self@.lines)),
    {
        let mut out = String::new();
        let mut i: usize = 0;
        while i < self.message_content.len()
            invariant
                i <= self.message_content@.len(),
                self@.lines.len() == self.message_content@.len(),
                out@ == join_lines(line_texts(self@.lines).take(i as int)),
            decreases self.message_content@.len() - i,
        {
            let ghost ls = line_texts(self@.lines);
            assert(ls.take(i + 1).drop_last() =~= ls.take(i as int));
            assert(ls[i as int] == self.message_content@[i as int].text@);
            assert(ls.take(i + 1).last() == ls[i as int]);
            assert(ls.take(i + 1)[0] == ls[0]);
            proof {
                reveal_strlit("\n");
            }
            assert("\n"@ =~= seq!['\n']);
            if i > 0 {
                out.append("\n");
            } else {
                assert(out@ =~= Seq::<char>::empty());
            }
            out.append(self.message_content[i].text.as_str());
            i = i + 1;
            assert(out@ =~= join_lines(ls.take(i as int)));
        }
        assert(line_texts(self@.lines).take(i as int) =~= line_texts(self@.lines));
        out
    }

    /// Replaces the content of the message with a formatted text, laid out
    /// as styled lines.
    pub fn set_message_content(&mut self, text: &str, entities: &Vec<TextEntity>)
        ensures
            final(self)@ == (MessageView { lines: format_spec(text@, entities@), ..old(self)@ }),
    {
        self.message_content = format_message_content(text, entities);
    }

    /// The styled lines of the message.
    pub fn lines(&self) -> (r: &Vec<StyledSpan>)
        ensures
            r@.map_values(|l: StyledSpan| l@) == self@.lines,
    {
        &self.message_content
    }

    pub fn is_edited(&self) -> (r: bool)
        ensures
            r == self@.is_edited,
    {
        self.is_edited
    }

    /// The mark shown in the header of an edited message.
    pub fn edit_mark(&self) -> (r: &'static str)
        ensures
            r@ == if self@.is_edited {
                "\u{270f}\u{fe0f}"@
            } else {
                ""@
            },
    {
        if self.is_edited {
            "\u{270f}\u{fe0f}"
        } else {
            ""
        }
    }

    /// The mark shown for a message's read state: sent but unread, seen, or
    /// nothing when the state is unknown.
    pub fn unread_mark(is_unread: Option<bool>) -> (r: &'static str)
        ensures
            r@ == match is_unread {
                Some(true) => "\u{1f4e4}"@,
                Some(false) => "\u{1f440}"@,
                None => ""@,
            },
    {
        match is_unread {
            Some(true) => "\u{1f4e4}",
            Some(false) => "\u{1f440}",
            None => "",
        }
    }

    pub fn set_is_edited(&mut self, is_edited: bool)
        ensures
            final(self)@ == (MessageView { is_edited, ..old(self)@ }),
    {
        self.is_edited = is_edited;
    }
}

} // verus!
