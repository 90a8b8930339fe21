//! A wizard that leads through a dialog: the system asks a question with options, the
//! user picks one, and the answers pile up as a conversation.

use vstd::prelude::*;

verus! {

/// Sender of a message.
#[derive(Debug, Clone, Copy, PartialEq, Eq, Structural)]
pub enum MessageSender {
    /// The program.
    System,
    /// The person at the keyboard.
    User,
}

/// An option in a wizard question.
#[derive(Debug, Clone)]
pub struct WizardOption {
    /// What the option shows.
    pub label: String,
    /// What choosing the option answers.
    pub value: String,
    /// A remark shown after the label.
    pub metadata: Option<String>,
}

/// Content of a message.
#[derive(Debug, Clone)]
pub enum MessageContent {
    /// A question with options to choose from.
    Question {
        /// The question.
        text: String,
        /// The options.
        options: Vec<WizardOption>,
    },
    /// An answer given.
    Answer {
        /// The answer.
        text: String,
    },
    /// A note.
    Info {
        /// The note.
        text: String,
    },
}

/// A message in the wizard conversation.
#[derive(Debug, Clone)]
pub struct WizardMessage {
    /// Who sent it.
    pub sender: MessageSender,
    /// What it says.
    pub content: MessageContent,
    /// When it was sent, as text.
    pub timestamp: Option<String>,
}

/// Action result from wizard interaction.
#[derive(Debug, Clone, PartialEq, Eq)]
pub enum WizardAction {
    /// Nothing happened.
    NoAction,
    /// An answer was given; the next question may follow.
    NextQuestion,
    /// The wizard is done with these answers.
    Complete(Vec<String>),
    /// The wizard was left.
    Cancel,
}

/// Wizard renderer for dialog-style interactions.
#[derive(Debug)]
pub struct WizardRenderer {
    messages: Vec<WizardMessage>,
    current_question_index: usize,
    selected_option_index: usize,
}

/// The options of the message at `index`, when it is a question.
pub open spec fn question_options(messages: Seq<WizardMessage>, index: int) -> Option<Seq<WizardOption>> {
    if 0 <= index < messages.len() {
        match messages[index].content {
            MessageContent::Question { options, .. } => Some(options@),
            _ => None,
        }
    } else {
        None
    }
}

/// The value of the highlighted option of the current question, if there is one.
pub open spec fn selected_value(messages: Seq<WizardMessage>, current: int, selected: int) -> Option<Seq<char>> {
    match question_options(messages, current) {
        Some(options) => if 0 <= selected < options.len() { Some(options[selected].value@) } else { None },
        None => None,
    }
}

/// The highlight after moving it by one option forward (`forward`) or back, wrapping
/// around; it stays where it is unless the current message is a question with options.
pub open spec fn moved_selection(messages: Seq<WizardMessage>, current: int, selected: int, forward: bool) -> int {
    match question_options(messages, current) {
        Some(options) => if options.len() > 0 {
            if forward {
                (selected + 1) % (options.len() as int)
            } else if selected == 0 {
                options.len() - 1
            } else {
                selected - 1
            }
        } else {
            selected
        },
        None => selected,
    }
}

/// The text of a message in the conversation history.
pub open spec fn history_text(m: WizardMessage) -> Seq<char> {
    match m.content {
        MessageContent::Question { text, .. } => "System: "@ + text@,
        MessageContent::Answer { text } => "→ "@ + text@,
        MessageContent::Info { text } => "ℹ "@ + text@,
    }
}

/// The line of an option: an arrow before the highlighted one, then the label and the
/// remark in brackets.
pub open spec fn option_text(o: WizardOption, highlighted: bool) -> Seq<char> {
    let prefix = if highlighted { "  > "@ } else { "    "@ };
    match o.metadata {
        Some(m) => prefix + o.label@ + " ("@ + m@ + ")"@,
        None => prefix + o.label@,
    }
}

/// What confirming the highlighted option does to a wizard (`before` into `after`,
/// returning `r`): with such an option, its value is added to the conversation as the
/// user's answer and the wizard goes on to the next question; without one nothing
/// changes. The question and the highlight stay.
pub open spec fn confirmed(before: WizardRenderer, after: WizardRenderer, r: WizardAction) -> bool {
    &&& after.spec_current() == before.spec_current()
    &&& after.spec_selected() == before.spec_selected()
    &&& match selected_value(before.spec_messages(), before.spec_current(), before.spec_selected()) {
        Some(v) => {
            &&& r == WizardAction::NextQuestion
            &&& after.spec_messages().len() == before.spec_messages().len() + 1
            &&& after.spec_messages().drop_last() == before.spec_messages()
            &&& after.spec_messages().last().sender == MessageSender::User
            &&& after.spec_messages().last().content matches MessageContent::Answer { text } && text@ == v
            &&& after.spec_messages().last().timestamp is None
        },
        None => {
            &&& r == WizardAction::NoAction
            &&& after.spec_messages() == before.spec_messages()
        },
    }
}

impl WizardRenderer {
    /// The messages, oldest first.
    pub closed spec fn spec_messages(&self) -> Seq<WizardMessage> {
        self.messages@
    }

    /// Index of the message holding the current question.
    pub closed spec fn spec_current(&self) -> int {
        self.current_question_index as int
    }

    /// Index of the highlighted option.
    pub closed spec fn spec_selected(&self) -> int {
        self.selected_option_index as int
    }

    /// A wizard without messages.
    pub fn new() -> (r: Self)
        ensures
            r.spec_messages().len() == 0,
            r.spec_current() == 0,
            r.spec_selected() == 0,
    {
        WizardRenderer { messages: Vec::new(), current_question_index: 0, selected_option_index: 0 }
    }

    /// The messages, oldest first.
    pub fn messages(&self) -> (r: &Vec<WizardMessage>)
        ensures
            r@ == self.spec_messages(),
    {
        &self.messages
    }

    /// Index of the message holding the current question.
    pub fn current_question_index(&self) -> (r: usize)
        ensures
            r == self.spec_current(),
    {
        self.current_question_index
    }

    /// Index of the highlighted option.
    pub fn selected_option_index(&self) -> (r: usize)
        ensures
            r == self.spec_selected(),
    {
        self.selected_option_index
    }

    /// Adds a message to the conversation.
    pub fn add_message(&mut self, message: WizardMessage)
        ensures
            final(self).spec_messages() == old(self).spec_messages().push(message),
            final(self).spec_current() == old(self).spec_current(),
            final(self).spec_selected() == old(self).spec_selected(),
    {
        self.messages.push(message);
    }

    /// Adds a message and makes it the current question, with its first option
    /// highlighted.
    pub fn set_current_question(&mut self, message: WizardMessage)
        ensures
            final(self).spec_messages() == old(self).spec_messages().push(message),
            final(self).spec_current() == old(self).spec_messages().len(),
            final(self).spec_selected() == 0,
    {
        self.current_question_index = self.messages.len();
        self.messages.push(message);
        self.selected_option_index = 0;
    }

    /// The value of the highlighted option of the current question, if there is one.
    pub fn selected_option_value(&self) -> (r: Option<String>)
        ensures
            r matches Some(s) ==> selected_value(self.spec_messages(), self.spec_current(), self.spec_selected()) == Some(s@),
            r is None <==> selected_value(self.spec_messages(), self.spec_current(), self.spec_selected()) is None,
    {
        if self.current_question_index < self.messages.len() {
            match &self.messages[self.current_question_index].content {
                MessageContent::Question { options, .. } => {
                    if self.selected_option_index < options.len() {
                        return Some(options[self.selected_option_index].value.clone());
                    }
                },
                _ => {},
            }
        }
        None
    }

    /// Highlights the next option of the current question, wrapping around.
    pub fn select_next_option(&mut self)
        ensures
            final(self).spec_messages() == old(self).spec_messages(),
            final(self).spec_current() == old(self).spec_current(),
            final(self).spec_selected() == moved_selection(
                old(self).spec_messages(), old(self).spec_current(), old(self).spec_selected(), true),
    {
        if self.current_question_index < self.messages.len() {
            let len: usize = match &self.messages[self.current_question_index].content {
                MessageContent::Question { options, .. } => options.len(),
                _ => 0,
            };
            if len > 0 {
                proof {
                    vstd::arithmetic::div_mod::lemma_add_mod_noop(self.selected_option_index as int, 1, len as int);
                    vstd::arithmetic::div_mod::lemma_mod_bound(self.selected_option_index as int, len as int);
                    if len > 1 {
                        vstd::arithmetic::div_mod::lemma_small_mod(1, len as nat);
                    }
                }
                let r: usize = if len > 1 { 1 } else { 0 };
                self.selected_option_index = (self.selected_option_index % len + r) % len;
            }
        }
    }

    /// Highlights the previous option of the current question, wrapping around.
    pub fn select_previous_option(&mut self)
        ensures
            final(self).spec_messages() == old(self).spec_messages(),
            final(self).spec_current() == old(self).spec_current(),
            final(self).spec_selected() == moved_selection(
                old(self).spec_messages(), old(self).spec_current(), old(self).spec_selected(), false),
    {
        if self.current_question_index < self.messages.len() {
            let len: usize = match &self.messages[self.current_question_index].content {
                MessageContent::Question { options, .. } => options.len(),
                _ => 0,
            };
            if len > 0 {
                if self.selected_option_index == 0 {
                    self.selected_option_index = len - 1;
                } else {
                    self.selected_option_index = self.selected_option_index - 1;
                }
            }
        }
    }

    /// Answers the current question with the highlighted option: the answer is added
    /// to the conversation as the user's, and the wizard may go on. Without such an
    /// option nothing happens.
    pub fn confirm_selection(&mut self) -> (r: WizardAction)
        ensures
            confirmed(*old(self), *final(self), r),
    {
        match self.selected_option_value() {
            Some(value) => {
                self.add_message(WizardMessage {
                    sender: MessageSender::User,
                    content: MessageContent::Answer { text: value },
                    timestamp: None,
                });
                assert(self.spec_messages().drop_last() =~= old(self).spec_messages());
                WizardAction::NextQuestion
            },
            None => WizardAction::NoAction,
        }
    }

    /// The text of a message in the conversation history.
    pub fn history_line(message: &WizardMessage) -> (r: String)
        ensures
            r@ == history_text(*message),
    {
        let (mut out, text) = match &message.content {
            MessageContent::Question { text, .. } => ("System: ".to_owned(), text),
            MessageContent::Answer { text } => ("→ ".to_owned(), text),
            MessageContent::Info { text } => ("ℹ ".to_owned(), text),
        };
        out.append(text.as_str());
        out
    }

    /// The line shown for an option (see `option_text`).
    pub fn option_line(option: &WizardOption, highlighted: bool) -> (r: String)
        ensures
            r@ == option_text(*option, highlighted),
    {
        let mut out = if highlighted { "  > ".to_owned() } else { "    ".to_owned() };
        out.append(option.label.as_str());
        match &option.metadata {
            Some(m) => {
                out.append(" (");
                out.append(m.as_str());
                out.append(")");
            },
            None => {},
        }
        out
    }
}

impl Default for WizardRenderer {
    fn default() -> (r: Self)
        ensures
            r.spec_messages().len() == 0,
            r.spec_current() == 0,
            r.spec_selected() == 0,
    {
        Self::new()
    }
}

/// Moving the highlight of a question with options forward and then back, or back and
/// then forward, returns to the option one started from.
pub proof fn selection_moves_are_inverse(messages: Seq<WizardMessage>, current: int, selected: int)
    requires
        question_options(messages, current) matches Some(options) && 0 <= selected < options.len(),
    ensures
        moved_selection(messages, current, moved_selection(messages, current, selected, true), false) == selected,
        moved_selection(messages, current, moved_selection(messages, current, selected, false), true) == selected,
{
    let len = question_options(messages, current)->0.len() as int;
    crate::ui::widgets::header::switcher_next_prev_inverse(selected, len);
}

} // verus!
