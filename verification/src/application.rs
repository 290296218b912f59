//! The interaction state machine: the editable fields, the mode, the field
//! that is edited, and the log of broker messages.
//!
//! `handle_event` takes one event of the merged stream, changes the state
//! and says what the caller has to do about it. The functions after it
//! prepare what the display shows.

use crate::clock::{clock_text, decimal, format_time, local_time, push_decimal};
use crate::events::{EventView, InputEvent};
use crate::keys::{Event, KeyCode, KeyConfig, KeyEvent};
use crate::log::{Level, Log};
use crate::text::{display_width, text_width};
use vstd::prelude::*;
use vstd::string::StringExecFns;

verus! {

/// The number of fields of the form.
pub const FIELD_COUNT: u16 = 6;

/// The first field that can be edited: the one that an index falls back to
/// when it names no editable field.
pub const DEFAULT_FIELD: u16 = 2;

/// The field of the broker's URL.
pub const NATS_URL: u16 = 0;

/// The field of the subject that the listener subscribes to.
pub const SUB_SUBJECT: u16 = 1;

/// The field of the subject to publish to.
pub const PUB_SUBJECT: u16 = 2;

/// The field of the message to publish.
pub const PUB_MESSAGE: u16 = 3;

/// The field of the subject to send a request to.
pub const REQ_SUBJECT: u16 = 4;

/// The field of the message to send as a request.
pub const REQ_MESSAGE: u16 = 5;

/// Whether the keys command the console or edit a field.
#[derive(Clone, Copy, Debug, PartialEq, Eq, Structural)]
pub enum InputMode {
    Normal,
    Editing,
}

/// What the caller has to do after an event.
#[derive(Debug, PartialEq, Eq)]
pub enum Command {
    /// Nothing.
    Idle,
    /// Drain the session and leave the loop.
    Quit,
    /// Publish `message` to `subject`.
    Publish { subject: String, message: String },
    /// Send `message` to `subject` as a request.
    Request { subject: String, message: String },
    /// Hand the record to the log display.
    Show(Log),
}

/// A command as the contracts speak of it.
pub enum CommandView {
    Idle,
    Quit,
    Publish { subject: Seq<char>, message: Seq<char> },
    Request { subject: Seq<char>, message: Seq<char> },
    Show(Level, Seq<char>),
}

impl View for Command {
    type V = CommandView;

    open spec fn view(&self) -> CommandView {
        match *self {
            Command::Idle => CommandView::Idle,
            Command::Quit => CommandView::Quit,
            Command::Publish { subject, message } => CommandView::Publish {
                subject: subject@,
                message: message@,
            },
            Command::Request { subject, message } => CommandView::Request {
                subject: subject@,
                message: message@,
            },
            Command::Show(record) => CommandView::Show(record.level, record.text@),
        }
    }
}

/// Whether `index` names a field of the form.
pub open spec fn is_field(index: u16) -> bool {
    index < FIELD_COUNT
}

/// Whether `index` names a field that can be edited.
pub open spec fn is_editable(index: u16) -> bool {
    DEFAULT_FIELD <= index < FIELD_COUNT
}

/// The field that is edited when the index is `index`: the field it names
/// if that can be edited, the default field otherwise.
pub open spec fn coerced(index: u16) -> u16 {
    if is_editable(index) {
        index
    } else {
        DEFAULT_FIELD
    }
}

/// The index after one press of Tab: the next field, and after the last
/// field the first. An index that names no field is taken for the default
/// field first.
pub open spec fn advanced(index: u16) -> u16 {
    if is_field(index) {
        ((index + 1) % (FIELD_COUNT as int)) as u16
    } else {
        ((DEFAULT_FIELD + 1) % (FIELD_COUNT as int)) as u16
    }
}

/// An area of the screen, by its upper left corner and its size, in cells.
#[derive(Clone, Copy, Debug, PartialEq, Eq, Structural)]
pub struct Rect {
    pub x: u16,
    pub y: u16,
    pub width: u16,
    pub height: u16,
}

/// Where the cursor stands in a bordered field at `area` whose text takes
/// `columns` columns: behind the text, inside the border. `None` where that
/// cell has no coordinates.
pub open spec fn cursor_at(area: Rect, columns: nat) -> Option<(u16, u16)> {
    if area.x + columns + 1 <= u16::MAX && area.y + 1 <= u16::MAX {
        Some(((area.x + columns + 1) as u16, (area.y + 1) as u16))
    } else {
        None
    }
}

/// The title of a field of the form.
pub open spec fn spec_label(index: u16) -> Option<Seq<char>> {
    if index == NATS_URL {
        Some("NATS Server"@)
    } else if index == SUB_SUBJECT {
        Some("Subject"@)
    } else if index == PUB_SUBJECT {
        Some("Publish Subject"@)
    } else if index == PUB_MESSAGE {
        Some("Publish Message"@)
    } else if index == REQ_SUBJECT {
        Some("Request Subject"@)
    } else if index == REQ_MESSAGE {
        Some("Request Message"@)
    } else {
        None
    }
}

/// The colours in which the help names the keys.
#[derive(Clone, Copy, Debug, PartialEq, Eq, Structural)]
pub enum Color {
    Red,
    Blue,
    Cyan,
    LightCyan,
    Magenta,
}

/// A piece of a help line: plain text, or the name of a key, which is shown
/// bold and in its colour.
#[derive(Clone, Copy, Debug, PartialEq, Eq)]
pub struct HelpSpan {
    pub text: &'static str,
    pub key: Option<Color>,
}

/// The number of lines of the help.
pub const HELP_LINES: usize = 2;

/// A piece of plain help text.
pub open spec fn plain(text: &'static str) -> HelpSpan {
    HelpSpan { text, key: None }
}

/// The name of a key in the help.
pub open spec fn named(text: &'static str, color: Color) -> HelpSpan {
    HelpSpan { text, key: Some(color) }
}

/// Line `line` of the help for `mode`: the commands of the normal mode, or
/// the keys of the editing mode.
pub open spec fn spec_help(mode: InputMode, line: usize) -> Seq<HelpSpan> {
    match mode {
        InputMode::Normal => if line == 0 {
            seq![
                plain("Press "),
                named("Q", Color::Red),
                plain(" to exit, "),
                named("ENTER", Color::Blue),
                plain(" to start editing."),
            ]
        } else if line == 1 {
            seq![
                plain("Press "),
                named("P", Color::Cyan),
                plain(" to publish, "),
                named("R", Color::LightCyan),
                plain(" to request."),
            ]
        } else {
            Seq::empty()
        },
        InputMode::Editing => if line == 0 {
            seq![plain("Press "), named("ENTER", Color::Blue), plain(" to stop editing.")]
        } else if line == 1 {
            seq![plain("Press "), named("TAB", Color::Magenta), plain(" to move cursor.")]
        } else {
            Seq::empty()
        },
    }
}

/// The tag that the message pane puts before message `number`.
pub open spec fn spec_number_tag(number: nat) -> Seq<char> {
    "[#"@ + decimal(number) + "] "@
}

/// The tag that the message pane puts before a message's payload.
pub open spec fn spec_subject_tag(subject: Seq<char>) -> Seq<char> {
    "["@ + subject + "]: "@
}

/// The title of the message pane at a time of day.
pub open spec fn spec_messages_title(time: Seq<char>) -> Seq<char> {
    "Messages - "@ + time
}

/// What the console is, as the contracts speak of it.
pub struct ConsoleView {
    pub mode: InputMode,
    /// The index of the active field.
    pub index: u16,
    /// The texts of the fields, `FIELD_COUNT` of them, in the form's order.
    pub fields: Seq<Seq<char>>,
    /// The broker messages received so far, oldest first: subject and
    /// payload.
    pub messages: Seq<(Seq<char>, Seq<u8>)>,
    pub username: Option<String>,
    pub password: Option<String>,
    pub token: Option<String>,
    pub credentials: Option<String>,
}

impl ConsoleView {
    /// Whether the console has the form's fields, no more and no fewer.
    /// Every `Application` has.
    pub open spec fn is_form(self) -> bool {
        self.fields.len() == FIELD_COUNT
    }

    pub open spec fn with_mode(self, mode: InputMode) -> ConsoleView {
        ConsoleView { mode, ..self }
    }

    pub open spec fn with_index(self, index: u16) -> ConsoleView {
        ConsoleView { index, ..self }
    }

    /// The console with the text of field `index` replaced.
    pub open spec fn with_field(self, index: u16, text: Seq<char>) -> ConsoleView {
        ConsoleView { fields: self.fields.update(index as int, text), ..self }
    }

    /// The console with the active index coerced to an editable field.
    pub open spec fn settled(self) -> ConsoleView {
        self.with_index(coerced(self.index))
    }

    /// The text that is edited: that of the field the index is coerced to.
    pub open spec fn active_text(self) -> Seq<char> {
        self.fields[coerced(self.index) as int]
    }

    /// The console after `ch` was typed: the index is coerced, then `ch` is
    /// appended to the active field.
    pub open spec fn typed(self, ch: char) -> ConsoleView {
        self.settled().with_field(coerced(self.index), self.active_text().push(ch))
    }

    /// The console after Backspace: the index is coerced, then the last
    /// character of the active field is removed, if it has one.
    pub open spec fn erased(self) -> ConsoleView {
        let text = self.active_text();
        self.settled().with_field(
            coerced(self.index),
            if text.len() == 0 {
                text
            } else {
                text.drop_last()
            },
        )
    }

    /// The console with one more broker message in its log.
    pub open spec fn noted(self, subject: Seq<char>, payload: Seq<u8>) -> ConsoleView {
        ConsoleView { messages: self.messages.push((subject, payload)), ..self }
    }

    /// The console after a key press.
    pub open spec fn after_key(self, key: KeyEvent) -> ConsoleView {
        match self.mode {
            InputMode::Normal => match key.code {
                KeyCode::Enter => self.with_mode(InputMode::Editing),
                _ => self,
            },
            InputMode::Editing => match key.code {
                KeyCode::Enter => self.with_mode(InputMode::Normal),
                KeyCode::Char(ch) => self.typed(ch),
                KeyCode::Backspace => self.erased(),
                KeyCode::Tab => self.with_index(advanced(self.index)),
                KeyCode::Other => self,
            },
        }
    }

    /// What a key press asks the caller to do. Only the normal mode has
    /// commands: the exit key quits, `p` publishes the publish fields, `r`
    /// sends the request fields.
    pub open spec fn key_command(self, key: KeyEvent) -> CommandView {
        match self.mode {
            InputMode::Normal => if key.code == KeyCode::Enter {
                CommandView::Idle
            } else if key.code == KeyConfig::standard().exit_key.code {
                CommandView::Quit
            } else if key.code == KeyCode::Char('p') {
                CommandView::Publish {
                    subject: self.fields[PUB_SUBJECT as int],
                    message: self.fields[PUB_MESSAGE as int],
                }
            } else if key.code == KeyCode::Char('r') {
                CommandView::Request {
                    subject: self.fields[REQ_SUBJECT as int],
                    message: self.fields[REQ_MESSAGE as int],
                }
            } else {
                CommandView::Idle
            },
            InputMode::Editing => CommandView::Idle,
        }
    }

    /// The console after an event of the merged stream.
    pub open spec fn after(self, event: EventView) -> ConsoleView {
        match event {
            EventView::Input(Event::Key(key)) => self.after_key(key),
            EventView::Input(Event::Other) => self,
            EventView::Messages(subject, payload) => self.noted(subject, payload),
            EventView::Tick => self,
            EventView::Logs(_, _) => self,
        }
    }

    /// What an event of the merged stream asks the caller to do.
    pub open spec fn command(self, event: EventView) -> CommandView {
        match event {
            EventView::Input(Event::Key(key)) => self.key_command(key),
            EventView::Logs(level, text) => CommandView::Show(level, text),
            _ => CommandView::Idle,
        }
    }
}

/// The subject and the payload of each logged message, oldest first.
pub open spec fn message_views(messages: Seq<(String, Vec<u8>)>) -> Seq<(Seq<char>, Seq<u8>)> {
    messages.map_values(|message: (String, Vec<u8>)| (message.0@, message.1@))
}

/// The six texts of a form in which the text of one field was replaced.
proof fn lemma_field_replaced(fields: Seq<Seq<char>>, index: int)
    requires
        fields.len() == FIELD_COUNT,
        0 <= index < FIELD_COUNT,
    ensures
        forall|text: Seq<char>| #[trigger]
            fields.update(index, text) == seq![
                if index == 0 { text } else { fields[0] },
                if index == 1 { text } else { fields[1] },
                if index == 2 { text } else { fields[2] },
                if index == 3 { text } else { fields[3] },
                if index == 4 { text } else { fields[4] },
                if index == 5 { text } else { fields[5] },
            ],
{
    assert forall|text: Seq<char>| #[trigger]
        fields.update(index, text) == seq![
            if index == 0 { text } else { fields[0] },
            if index == 1 { text } else { fields[1] },
            if index == 2 { text } else { fields[2] },
            if index == 3 { text } else { fields[3] },
            if index == 4 { text } else { fields[4] },
            if index == 5 { text } else { fields[5] },
        ] by {
        assert(fields.update(index, text) =~= seq![
            if index == 0 { text } else { fields[0] },
            if index == 1 { text } else { fields[1] },
            if index == 2 { text } else { fields[2] },
            if index == 3 { text } else { fields[3] },
            if index == 4 { text } else { fields[4] },
            if index == 5 { text } else { fields[5] },
        ]);
    }
}

/// The console's state.
pub struct Application {
    input_nats_url: String,
    input_sub_subject: String,
    input_pub_subject: String,
    input_pub_message: String,
    input_req_subject: String,
    input_req_message: String,
    input_username: Option<String>,
    input_password: Option<String>,
    input_token: Option<String>,
    input_credentials: Option<String>,
    input_index: u16,
    input_mode: InputMode,
    messages: Vec<(String, Vec<u8>)>,
}

impl View for Application {
    type V = ConsoleView;

    closed spec fn view(&self) -> ConsoleView {
        ConsoleView {
            mode: self.input_mode,
            index: self.input_index,
            fields: seq![
                self.input_nats_url@,
                self.input_sub_subject@,
                self.input_pub_subject@,
                self.input_pub_message@,
                self.input_req_subject@,
                self.input_req_message@,
            ],
            messages: message_views(self.messages@),
            username: self.input_username,
            password: self.input_password,
            token: self.input_token,
            credentials: self.input_credentials,
        }
    }
}

impl Application {
    /// A console in normal mode, on the first field, with the broker's URL
    /// and the subscription subject filled in, the other fields empty and
    /// no message logged.
    pub fn new(
        nats_url: String,
        subject: String,
        username: Option<String>,
        password: Option<String>,
        token: Option<String>,
        credentials: Option<String>,
    ) -> (app: Self)
        ensures
            app@.is_form(),
            app@ == (ConsoleView {
                mode: InputMode::Normal,
                index: 0,
                fields: seq![
                    nats_url@,
                    subject@,
                    Seq::<char>::empty(),
                    Seq::<char>::empty(),
                    Seq::<char>::empty(),
                    Seq::<char>::empty(),
                ],
                messages: Seq::<(Seq<char>, Seq<u8>)>::empty(),
                username,
                password,
                token,
                credentials,
            }),
    {
        let app = Application {
            input_nats_url: nats_url,
            input_sub_subject: subject,
            input_pub_subject: String::new(),
            input_pub_message: String::new(),
            input_req_subject: String::new(),
            input_req_message: String::new(),
            input_username: username,
            input_password: password,
            input_token: token,
            input_credentials: credentials,
            input_index: 0,
            input_mode: InputMode::Normal,
            messages: Vec::new(),
        };
        assert(app@.messages =~= Seq::<(Seq<char>, Seq<u8>)>::empty());
        app
    }

    /// The field that is edited, for writing. An index that names no
    /// editable field is reset to the default field first.
    pub fn get_input(&mut self) -> (input: &mut String)
        ensures
            input@ == old(self)@.active_text(),
            final(self)@ == old(self)@.settled().with_field(
                coerced(old(self)@.index),
                final(input)@,
            ),
    {
        proof {
            lemma_field_replaced(self@.fields, coerced(self.input_index) as int);
        }
        match self.input_index {
            2 => &mut self.input_pub_subject,
            3 => &mut self.input_pub_message,
            4 => &mut self.input_req_subject,
            5 => &mut self.input_req_message,
            _ => {
                self.input_index = 2;
                &mut self.input_pub_subject
            },
        }
    }

    /// Every console has the form's fields.
    pub proof fn lemma_is_form(&self)
        ensures
            self@.is_form(),
    {
    }

    pub fn input_mode(&self) -> (mode: InputMode)
        ensures
            mode == self@.mode,
    {
        self.input_mode
    }

    pub fn input_index(&self) -> (index: u16)
        ensures
            index == self@.index,
    {
        self.input_index
    }

    /// Makes `index` the active index, as it is: an index that names no
    /// editable field is coerced only when the field is next edited.
    pub fn set_input_index(&mut self, index: u16)
        ensures
            final(self)@ == old(self)@.with_index(index),
    {
        self.input_index = index;
    }

    /// The text of field `index`, or `None` where the form has no such
    /// field.
    pub fn field(&self, index: u16) -> (text: Option<&String>)
        ensures
            text is Some == is_field(index),
            is_field(index) ==> text->0@ == self@.fields[index as int],
    {
        match index {
            0 => Some(&self.input_nats_url),
            1 => Some(&self.input_sub_subject),
            2 => Some(&self.input_pub_subject),
            3 => Some(&self.input_pub_message),
            4 => Some(&self.input_req_subject),
            5 => Some(&self.input_req_message),
            _ => None,
        }
    }

    /// The broker messages received so far, oldest first.
    pub fn messages(&self) -> (messages: &Vec<(String, Vec<u8>)>)
        ensures
            message_views(messages@) == self@.messages,
    {
        &self.messages
    }

    pub fn username(&self) -> (username: &Option<String>)
        ensures
            *username == self@.username,
    {
        &self.input_username
    }

    pub fn password(&self) -> (password: &Option<String>)
        ensures
            *password == self@.password,
    {
        &self.input_password
    }

    pub fn token(&self) -> (token: &Option<String>)
        ensures
            *token == self@.token,
    {
        &self.input_token
    }

    pub fn credentials(&self) -> (credentials: &Option<String>)
        ensures
            *credentials == self@.credentials,
    {
        &self.input_credentials
    }

    /// One key press. In normal mode Enter starts editing and the command
    /// keys ask for their commands. In editing mode Enter stops editing, a
    /// character is appended to the active field, Backspace removes its last
    /// character and Tab moves to the next field. Every other key does
    /// nothing.
    pub fn handle_key(&mut self, key: KeyEvent) -> (command: Command)
        ensures
            final(self)@ == old(self)@.after_key(key),
            command@ == old(self)@.key_command(key),
    {
        match self.input_mode {
            InputMode::Normal => {
                let keys = KeyConfig::default();
                if key.code == KeyCode::Enter {
                    self.input_mode = InputMode::Editing;
                    Command::Idle
                } else if key.code == keys.exit_key.code {
                    Command::Quit
                } else if key.code == KeyCode::Char('p') {
                    Command::Publish {
                        subject: self.input_pub_subject.clone(),
                        message: self.input_pub_message.clone(),
                    }
                } else if key.code == KeyCode::Char('r') {
                    Command::Request {
                        subject: self.input_req_subject.clone(),
                        message: self.input_req_message.clone(),
                    }
                } else {
                    Command::Idle
                }
            },
            InputMode::Editing => {
                match key.code {
                    KeyCode::Enter => {
                        self.input_mode = InputMode::Normal;
                    },
                    KeyCode::Char(ch) => {
                        self.get_input().push(ch);
                    },
                    KeyCode::Backspace => {
                        self.get_input().pop();
                    },
                    KeyCode::Tab => {
                        self.input_index = if self.input_index < FIELD_COUNT {
                            (self.input_index + 1) % FIELD_COUNT
                        } else {
                            (DEFAULT_FIELD + 1) % FIELD_COUNT
                        };
                    },
                    KeyCode::Other => {},
                }
                Command::Idle
            },
        }
    }

    /// One event of the merged stream. A key press is handled as
    /// `handle_key` says. A broker message is appended to the message log. A
    /// log record is handed on for the log display. A tick, and any other
    /// terminal event, changes nothing.
    pub fn handle_event(&mut self, event: InputEvent) -> (command: Command)
        ensures
            final(self)@ == old(self)@.after(event@),
            command@ == old(self)@.command(event@),
    {
        match event {
            InputEvent::Input(Event::Key(key)) => self.handle_key(key),
            InputEvent::Input(Event::Other) => Command::Idle,
            InputEvent::Messages(subject, payload) => {
                self.messages.push((subject, payload));
                assert(message_views(self.messages@) =~= message_views(old(self).messages@).push(
                    (subject@, payload@),
                ));
                Command::Idle
            },
            InputEvent::Tick => Command::Idle,
            InputEvent::Logs(record) => Command::Show(record),
        }
    }

    /// The message log as the display lists it: newest first, each message
    /// with its number in order of arrival, counted from 0.
    pub fn newest_first(&self) -> (lines: Vec<(usize, &String, &Vec<u8>)>)
        ensures
            lines@.len() == self@.messages.len(),
            forall|k: int|
                0 <= k < lines@.len() ==> {
                    &&& (#[trigger] lines@[k]).0 == lines@.len() - 1 - k
                    &&& (lines@[k].1@, lines@[k].2@) == self@.messages[lines@.len() - 1 - k]
                },
    {
        let count = self.messages.len();
        let mut lines: Vec<(usize, &String, &Vec<u8>)> = Vec::new();
        let mut left: usize = count;
        while left > 0
            invariant
                count == self.messages@.len(),
                left <= count,
                lines@.len() == count - left,
                forall|k: int|
                    0 <= k < lines@.len() ==> {
                        &&& (#[trigger] lines@[k]).0 == count - 1 - k
                        &&& *lines@[k].1 == self.messages@[count - 1 - k].0
                        &&& *lines@[k].2 == self.messages@[count - 1 - k].1
                    },
            decreases left,
        {
            left = left - 1;
            let message = &self.messages[left];
            lines.push((left, &message.0, &message.1));
        }
        lines
    }

    /// The title of field `index`, or `None` where the form has no such
    /// field.
    pub fn label(index: u16) -> (title: Option<&'static str>)
        ensures
            title is Some == is_field(index),
            is_field(index) ==> Some(title->0@) == spec_label(index),
    {
        match index {
            0 => Some("NATS Server"),
            1 => Some("Subject"),
            2 => Some("Publish Subject"),
            3 => Some("Publish Message"),
            4 => Some("Request Subject"),
            5 => Some("Request Message"),
            _ => None,
        }
    }

    /// Where the cursor belongs on the screen, given the areas of the
    /// fields in the form's order. In normal mode there is no cursor. In
    /// editing mode the active index is coerced to an editable field, and
    /// the cursor stands behind that field's text, as `cursor_at` says;
    /// `None` where `chunk` has no area for the field.
    pub fn set_cursor(&mut self, chunk: &Vec<Rect>) -> (cursor: Option<(u16, u16)>)
        ensures
            old(self)@.mode == InputMode::Normal ==> cursor is None && final(self)@ == old(self)@,
            old(self)@.mode == InputMode::Editing ==> final(self)@ == old(self)@.settled()
                && cursor == (if coerced(old(self)@.index) < chunk@.len() {
                cursor_at(
                    chunk@[coerced(old(self)@.index) as int],
                    display_width(old(self)@.active_text()),
                )
            } else {
                None
            }),
    {
        match self.input_mode {
            InputMode::Normal => None,
            InputMode::Editing => {
                let columns = text_width(self.get_input().as_str());
                assert(self@.fields =~= old(self)@.fields);
                let index = self.input_index as usize;
                if index < chunk.len() {
                    place_cursor(&chunk[index], columns)
                } else {
                    None
                }
            },
        }
    }

    /// Line `line` of the help for the current mode; the help has
    /// `HELP_LINES` lines, and no pieces beyond them.
    pub fn help(&self, line: usize) -> (spans: Vec<HelpSpan>)
        ensures
            spans@ == spec_help(self@.mode, line),
    {
        let spans = match self.input_mode {
            InputMode::Normal => if line == 0 {
                vec![
                    HelpSpan { text: "Press ", key: None },
                    HelpSpan { text: "Q", key: Some(Color::Red) },
                    HelpSpan { text: " to exit, ", key: None },
                    HelpSpan { text: "ENTER", key: Some(Color::Blue) },
                    HelpSpan { text: " to start editing.", key: None },
                ]
            } else if line == 1 {
                vec![
                    HelpSpan { text: "Press ", key: None },
                    HelpSpan { text: "P", key: Some(Color::Cyan) },
                    HelpSpan { text: " to publish, ", key: None },
                    HelpSpan { text: "R", key: Some(Color::LightCyan) },
                    HelpSpan { text: " to request.", key: None },
                ]
            } else {
                Vec::new()
            },
            InputMode::Editing => if line == 0 {
                vec![
                    HelpSpan { text: "Press ", key: None },
                    HelpSpan { text: "ENTER", key: Some(Color::Blue) },
                    HelpSpan { text: " to stop editing.", key: None },
                ]
            } else if line == 1 {
                vec![
                    HelpSpan { text: "Press ", key: None },
                    HelpSpan { text: "TAB", key: Some(Color::Magenta) },
                    HelpSpan { text: " to move cursor.", key: None },
                ]
            } else {
                Vec::new()
            },
        };
        assert(spans@ =~= spec_help(self@.mode, line));
        spans
    }

    /// The title of the message pane: its name and the local time of day.
    pub fn messages_title(&self) -> (title: String)
        ensures
            exists|hour: nat, minute: nat, second: nat|
                hour < 24 && minute < 60 && second < 60 && title@ == spec_messages_title(
                    #[trigger] clock_text(hour, minute, second),
                ),
    {
        let time = self.get_time();
        String::from_str("Messages - ").concat(time.as_str())
    }

    /// The local time of day, as the message pane shows it: the text of some
    /// hour below 24, minute below 60 and second below 60.
    pub fn get_time(&self) -> (text: String)
        ensures
            exists|hour: nat, minute: nat, second: nat|
                hour < 24 && minute < 60 && second < 60 && text@ == #[trigger] clock_text(
                    hour,
                    minute,
                    second,
                ),
    {
        let now = local_time();
        format_time(now.0, now.1, now.2)
    }
}

/// The tag that the message pane puts before message `number`.
pub fn number_tag(number: usize) -> (tag: String)
    ensures
        tag@ == spec_number_tag(number as nat),
{
    let mut tag = String::from_str("[#");
    push_decimal(&mut tag, number as u64);
    tag.concat("] ")
}

/// The tag that the message pane puts before a message's payload.
pub fn subject_tag(subject: &str) -> (tag: String)
    ensures
        tag@ == spec_subject_tag(subject@),
{
    String::from_str("[").concat(subject).concat("]: ")
}

/// Where the cursor stands in a bordered field at `area` whose text takes
/// `columns` columns.
pub fn place_cursor(area: &Rect, columns: usize) -> (cursor: Option<(u16, u16)>)
    ensures
        cursor == cursor_at(*area, columns as nat),
{
    if columns >= 0xffff {
        return None;
    }
    let columns: u32 = columns as u32;
    let x: u32 = area.x as u32 + columns + 1;
    let y: u32 = area.y as u32 + 1;
    if x <= 0xffff && y <= 0xffff {
        Some((x as u16, y as u16))
    } else {
        None
    }
}

/// Tab advances the active index by exactly one, modulo the number of
/// fields, from every index that names a field, and changes nothing else.
pub proof fn lemma_tab_advances_by_one(console: ConsoleView, key: KeyEvent)
    requires
        console.mode == InputMode::Editing,
        key.code == KeyCode::Tab,
        is_field(console.index),
    ensures
        console.after_key(key).index == (console.index + 1) % (FIELD_COUNT as int),
        is_field(console.after_key(key).index),
        console.after_key(key) == console.with_index(console.after_key(key).index),
        console.key_command(key) == CommandView::Idle,
{
}

/// Six presses of Tab lead back to the field they started from.
pub proof fn lemma_tab_cycles(console: ConsoleView, key: KeyEvent)
    requires
        console.mode == InputMode::Editing,
        key.code == KeyCode::Tab,
        is_field(console.index),
    ensures
        console.after_key(key).after_key(key).after_key(key).after_key(key).after_key(
            key,
        ).after_key(key) == console,
{
}

/// No event adds a field to the form or takes one away.
pub proof fn lemma_form_is_kept(console: ConsoleView, event: EventView)
    requires
        console.is_form(),
    ensures
        console.after(event).is_form(),
{
}

/// An index that names no editable field is coerced to the default field
/// before an edit is applied: the character goes to, and Backspace takes
/// from, the default field, and the other fields keep their texts.
pub proof fn lemma_edit_coerces_the_index(console: ConsoleView, ch: char)
    requires
        console.is_form(),
        !is_editable(console.index),
    ensures
        console.typed(ch).index == DEFAULT_FIELD,
        console.typed(ch).fields == console.fields.update(
            DEFAULT_FIELD as int,
            console.fields[DEFAULT_FIELD as int].push(ch),
        ),
        console.erased().index == DEFAULT_FIELD,
        forall|other: int|
            0 <= other < FIELD_COUNT && other != DEFAULT_FIELD ==> console.typed(ch).fields[other]
                == console.fields[other] && console.erased().fields[other]
                == console.fields[other],
{
}

/// After any edit the active index names an editable field, whatever it was
/// before.
pub proof fn lemma_edit_settles_the_index(console: ConsoleView, ch: char)
    ensures
        is_editable(console.typed(ch).index),
        is_editable(console.erased().index),
        is_field(advanced(console.index)),
{
}

} // verus!
