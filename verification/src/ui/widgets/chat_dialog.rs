//! An interactive dialog that asks one step after the other, like a chat: questions
//! with free text, a choice or yes/no, confirmations and notes. Answers are kept as a
//! history, so that a step can be taken back.

use crate::text::{char_index_at_byte, char_index_of_byte, chars_of, string_from_chars};
use vstd::prelude::*;

verus! {

/// Input types for chat steps.
#[derive(Debug, Clone)]
pub enum InputType {
    /// Free text.
    Text,
    /// Free text followed by a fixed suffix.
    TextWithSuffix(String),
    /// One of the given options.
    Choice(Vec<String>),
    /// Yes or no.
    YesNo,
    /// An amount of money, typed as text.
    Money,
}

/// Chat step types.
#[derive(Debug, Clone)]
pub enum ChatStep {
    /// A question the user answers.
    Question {
        /// The question.
        prompt: String,
        /// An explanation under the question.
        subtitle: Option<String>,
        /// How the answer is given.
        input_type: InputType,
    },
    /// A summary the user confirms.
    Confirmation {
        /// The request to confirm.
        prompt: String,
        /// Pairs of label and value shown for confirmation.
        details: Vec<(String, String)>,
    },
    /// A note that needs no answer.
    Info {
        /// The note.
        message: String,
    },
    /// The final note of the dialog.
    Completed {
        /// The note.
        message: String,
    },
}

/// Chat message in history.
#[derive(Debug, Clone)]
pub struct ChatMessage {
    /// The question that was answered.
    pub prompt: String,
    /// The answer given.
    pub response: String,
    /// Whether the step was completed.
    pub is_completed: bool,
}

/// Interactive chat dialog widget.
#[derive(Debug)]
pub struct ChatDialog {
    /// Title of the dialog frame.
    pub title: String,
    /// The steps, in order.
    pub steps: Vec<ChatStep>,
    /// Index of the step being shown.
    pub current_step: usize,
    /// The answered steps, in order.
    pub history: Vec<ChatMessage>,
    /// Text typed for the current step.
    pub input: String,
    /// Byte offset in `input` at which typed characters are inserted.
    pub cursor_position: usize,
    /// Index of the highlighted option of the current step.
    pub selected_option: usize,
    /// Whether all steps have been passed.
    pub is_complete: bool,
}

/// A history entry as prompt, answer and whether the step was completed.
pub open spec fn chat_message_view(m: ChatMessage) -> (Seq<char>, Seq<char>, bool) {
    (m.prompt@, m.response@, m.is_completed)
}

/// What a dialog shows and holds, with texts as character sequences.
pub struct ChatDialogView {
    /// Title of the dialog frame.
    pub title: Seq<char>,
    /// The steps, in order.
    pub steps: Seq<ChatStep>,
    /// Index of the step being shown.
    pub current_step: nat,
    /// The answered steps as prompt, answer and completion.
    pub history: Seq<(Seq<char>, Seq<char>, bool)>,
    /// Text typed for the current step.
    pub input: Seq<char>,
    /// Byte offset of the cursor in the typed text.
    pub cursor: nat,
    /// Index of the highlighted option.
    pub selected: nat,
    /// Whether all steps have been passed.
    pub is_complete: bool,
}

impl View for ChatDialog {
    type V = ChatDialogView;

    open spec fn view(&self) -> ChatDialogView {
        ChatDialogView {
            title: self.title@,
            steps: self.steps@,
            current_step: self.current_step as nat,
            history: self.history@.map_values(|m: ChatMessage| chat_message_view(m)),
            input: self.input@,
            cursor: self.cursor_position as nat,
            selected: self.selected_option as nat,
            is_complete: self.is_complete,
        }
    }
}

/// The answer a question step gets from the typed text and the highlighted option:
/// the text for free input, the highlighted option for a choice (nothing when the
/// index lies past the options), and "Ja" or "Nein" for yes/no.
pub open spec fn answer_of(input_type: InputType, input: Seq<char>, selected: nat) -> Seq<char> {
    match input_type {
        InputType::Choice(options) => if selected < options@.len() {
            options@[selected as int]@
        } else {
            Seq::empty()
        },
        InputType::YesNo => if selected == 0 { "Ja"@ } else { "Nein"@ },
        _ => input,
    }
}

/// The history entry confirming a step adds: the prompt with the answer of a question,
/// the prompt with a check mark for a confirmation, and none for a note.
pub open spec fn history_entry(step: ChatStep, input: Seq<char>, selected: nat) -> Option<(Seq<char>, Seq<char>, bool)> {
    match step {
        ChatStep::Question { prompt, input_type, .. } => Some((prompt@, answer_of(input_type, input, selected), true)),
        ChatStep::Confirmation { prompt, .. } => Some((prompt@, "✓"@, true)),
        _ => None,
    }
}

/// What confirming a step returns: the answer of a question, "confirmed" for a
/// confirmation, and nothing for a note.
pub open spec fn step_response(step: ChatStep, input: Seq<char>, selected: nat) -> Option<Seq<char>> {
    match step {
        ChatStep::Question { input_type, .. } => Some(answer_of(input_type, input, selected)),
        ChatStep::Confirmation { .. } => Some("confirmed"@),
        _ => None,
    }
}

/// The dialog after confirming its current step: the step's history entry is added,
/// the next step is shown with empty input and the first option highlighted, and the
/// dialog is complete once no step is left. Without a current step nothing changes.
pub open spec fn confirm_view(v: ChatDialogView) -> ChatDialogView {
    if v.current_step < v.steps.len() {
        let step = v.steps[v.current_step as int];
        let next = v.current_step + 1;
        ChatDialogView {
            current_step: next,
            history: match history_entry(step, v.input, v.selected) {
                Some(e) => v.history.push(e),
                None => v.history,
            },
            input: Seq::empty(),
            cursor: 0,
            selected: 0,
            is_complete: if next >= v.steps.len() { true } else { v.is_complete },
            ..v
        }
    } else {
        v
    }
}

/// What confirming the current step returns (see `step_response`); nothing without
/// a current step.
pub open spec fn confirm_response(v: ChatDialogView) -> Option<Seq<char>> {
    if v.current_step < v.steps.len() {
        step_response(v.steps[v.current_step as int], v.input, v.selected)
    } else {
        None
    }
}

/// The dialog after going back a step: the previous step is shown again with empty
/// input, and the last history entry is dropped. On the first step nothing changes.
pub open spec fn go_back_view(v: ChatDialogView) -> ChatDialogView {
    if v.current_step > 0 {
        ChatDialogView {
            current_step: (v.current_step - 1) as nat,
            history: if v.history.len() > 0 { v.history.drop_last() } else { v.history },
            input: Seq::empty(),
            cursor: 0,
            selected: 0,
            ..v
        }
    } else {
        v
    }
}

/// The dialog after typing `ch`: it is inserted at the character the cursor's byte
/// offset stands before, and the offset moves on by one.
pub open spec fn typed_view(v: ChatDialogView, ch: char) -> ChatDialogView {
    ChatDialogView {
        input: v.input.insert(char_index_at_byte(v.input, v.cursor as int)->0, ch),
        cursor: v.cursor + 1,
        ..v
    }
}

/// The dialog after deleting before the cursor: the offset moves back by one and the
/// character that starts there is removed; at offset 0 nothing changes.
pub open spec fn deleted_view(v: ChatDialogView) -> ChatDialogView {
    if v.cursor > 0 {
        ChatDialogView {
            input: v.input.remove(char_index_at_byte(v.input, v.cursor - 1)->0),
            cursor: (v.cursor - 1) as nat,
            ..v
        }
    } else {
        v
    }
}

/// The highest option index of a step: the last option of a choice, 1 for yes/no and
/// 0 otherwise.
pub open spec fn max_option(step: ChatStep) -> nat {
    match step {
        ChatStep::Question { input_type, .. } => match input_type {
            InputType::Choice(options) => if options@.len() > 0 { (options@.len() - 1) as nat } else { 0 },
            InputType::YesNo => 1,
            _ => 0,
        },
        _ => 0,
    }
}

/// The answer of a question step as an owned string.
fn answer(input_type: &InputType, input: &String, selected: usize) -> (r: String)
    ensures
        r@ == answer_of(*input_type, input@, selected as nat),
{
    match input_type {
        InputType::Choice(options) => {
            if selected < options.len() {
                options[selected].clone()
            } else {
                String::new()
            }
        },
        InputType::YesNo => {
            if selected == 0 {
                "Ja".to_owned()
            } else {
                "Nein".to_owned()
            }
        },
        _ => input.clone(),
    }
}

impl ChatDialog {
    /// An empty dialog with the given title.
    pub fn new(title: &str) -> (r: Self)
        ensures
            r@ == (ChatDialogView {
                title: title@,
                steps: Seq::empty(),
                current_step: 0,
                history: Seq::empty(),
                input: Seq::empty(),
                cursor: 0,
                selected: 0,
                is_complete: false,
            }),
    {
        let r = ChatDialog {
            title: title.to_owned(),
            steps: Vec::new(),
            current_step: 0,
            history: Vec::new(),
            input: String::new(),
            cursor_position: 0,
            selected_option: 0,
            is_complete: false,
        };
        assert(r@.history =~= Seq::empty());
        r
    }

    /// Appends a step.
    pub fn add_step(self, step: ChatStep) -> (r: Self)
        ensures
            r@ == (ChatDialogView { steps: self@.steps.push(step), ..self@ }),
    {
        let mut d = self;
        d.steps.push(step);
        d
    }

    /// The step being shown, if any is left.
    pub fn current_step(&self) -> (r: Option<&ChatStep>)
        ensures
            r matches Some(s) ==> self.current_step < self.steps.len() && *s == self.steps@[self.current_step as int],
            r is None <==> self.current_step >= self.steps.len(),
    {
        if self.current_step < self.steps.len() {
            Some(&self.steps[self.current_step])
        } else {
            None
        }
    }

    /// Inserts `ch` into the typed text at the cursor's byte offset and moves the
    /// cursor on by one. The offset must be a char boundary of the text.
    pub fn push_char(&mut self, ch: char)
        requires
            char_index_at_byte(old(self).input@, old(self).cursor_position as int) is Some,
            old(self).cursor_position < usize::MAX,
        ensures
            final(self)@ == typed_view(old(self)@, ch),
    {
        let mut cs = chars_of(self.input.as_str());
        match char_index_of_byte(&cs, self.cursor_position) {
            Some(k) => {
                proof {
                    char_index_bound(cs@, self.cursor_position as int);
                }
                cs.insert(k, ch);
                self.input = string_from_chars(&cs);
                self.cursor_position = self.cursor_position + 1;
            },
            None => {},
        }
    }

    /// Moves the cursor back by one byte and removes the character that starts there;
    /// at offset 0 nothing changes. The new offset must start a character.
    pub fn pop_char(&mut self)
        requires
            old(self).cursor_position > 0 ==> (char_index_at_byte(old(self).input@, old(self).cursor_position - 1) matches Some(k)
                && k < old(self).input@.len()),
        ensures
            final(self)@ == deleted_view(old(self)@),
    {
        if self.cursor_position > 0 {
            let mut cs = chars_of(self.input.as_str());
            match char_index_of_byte(&cs, self.cursor_position - 1) {
                Some(k) => {
                    cs.remove(k);
                    self.input = string_from_chars(&cs);
                    self.cursor_position = self.cursor_position - 1;
                },
                None => {},
            }
        }
    }

    /// Empties the typed text.
    pub fn clear_input(&mut self)
        ensures
            final(self)@ == (ChatDialogView { input: Seq::empty(), cursor: 0, ..old(self)@ }),
    {
        self.input = String::new();
        self.cursor_position = 0;
    }

    /// Highlights the next option of a question, up to its last one; other steps leave
    /// the highlight unchanged.
    pub fn next_option(&mut self)
        ensures
            final(self)@ == (if old(self).current_step < old(self).steps.len()
                && old(self).steps@[old(self).current_step as int] is Question {
                ChatDialogView {
                    selected: if old(self).selected_option + 1 < max_option(old(self).steps@[old(self).current_step as int]) {
                        (old(self).selected_option + 1) as nat
                    } else {
                        max_option(old(self).steps@[old(self).current_step as int])
                    },
                    ..old(self)@
                }
            } else {
                old(self)@
            }),
    {
        if self.current_step < self.steps.len() {
            let max: usize = match &self.steps[self.current_step] {
                ChatStep::Question { input_type, .. } => match input_type {
                    InputType::Choice(options) => if options.len() > 0 { options.len() - 1 } else { 0 },
                    InputType::YesNo => 1,
                    _ => 0,
                },
                _ => {
                    return;
                },
            };
            self.selected_option = if self.selected_option < max { self.selected_option + 1 } else { max };
        }
    }

    /// Highlights the previous option, stopping at the first.
    pub fn prev_option(&mut self)
        ensures
            final(self)@ == (ChatDialogView {
                selected: if old(self).selected_option > 0 { (old(self).selected_option - 1) as nat } else { 0 },
                ..old(self)@
            }),
    {
        if self.selected_option > 0 {
            self.selected_option = self.selected_option - 1;
        }
    }

    /// Confirms the current step (see `confirm_view` and `confirm_response`).
    pub fn confirm_step(&mut self) -> (r: Option<String>)
        ensures
            final(self)@ == confirm_view(old(self)@),
            r matches Some(s) ==> confirm_response(old(self)@) == Some(s@),
            r is None <==> confirm_response(old(self)@) is None,
    {
        let i = self.current_step;
        if i >= self.steps.len() {
            return None;
        }
        let ghost before = self@;
        let (entry, response): (Option<(String, String)>, Option<String>) = match &self.steps[i] {
            ChatStep::Question { prompt, input_type, .. } => {
                let resp = answer(input_type, &self.input, self.selected_option);
                (Some((prompt.clone(), resp.clone())), Some(resp))
            },
            ChatStep::Confirmation { prompt, .. } => {
                (Some((prompt.clone(), "✓".to_owned())), Some("confirmed".to_owned()))
            },
            _ => (None, None),
        };
        let ghost old_history = self.history@;
        match entry {
            Some((prompt, resp)) => {
                self.history.push(ChatMessage { prompt, response: resp, is_completed: true });
            },
            None => {},
        }
        self.current_step = i + 1;
        self.clear_input();
        self.selected_option = 0;
        if self.current_step >= self.steps.len() {
            self.is_complete = true;
        }
        proof {
            let f = |m: ChatMessage| chat_message_view(m);
            let step = before.steps[i as int];
            match history_entry(step, before.input, before.selected) {
                Some(e) => {
                    assert(self.history@.map_values(f) =~= old_history.map_values(f).push(e));
                },
                None => {
                    assert(self.history@.map_values(f) =~= old_history.map_values(f));
                },
            }
            assert(self@ == confirm_view(before));
        }
        response
    }

    /// Goes back to the previous step (see `go_back_view`).
    pub fn go_back(&mut self)
        ensures
            final(self)@ == go_back_view(old(self)@),
    {
        if self.current_step > 0 {
            let ghost old_history = self.history@;
            self.current_step = self.current_step - 1;
            self.history.pop();
            self.clear_input();
            self.selected_option = 0;
            proof {
                let f = |m: ChatMessage| chat_message_view(m);
                if old_history.len() > 0 {
                    assert(self.history@.map_values(f) =~= old_history.map_values(f).drop_last());
                }
            }
        }
    }
}

/// How a piece of text of the dialog is shown.
#[derive(Debug, Clone, Copy, PartialEq, Eq, Structural)]
pub enum Tone {
    /// Without emphasis.
    Plain,
    /// The marker in front of a prompt.
    Marker,
    /// Ordinary text.
    Normal,
    /// Secondary text.
    Dim,
    /// Typed input.
    Input,
    /// An option that is not highlighted.
    Button,
    /// The highlighted option.
    ButtonSelected,
    /// The marker of a note.
    Info,
    /// Something done.
    Success,
}

/// A line as its pieces of text with their tones.
pub open spec fn line_view(line: Seq<(String, Tone)>) -> Seq<(Seq<char>, Tone)> {
    line.map_values(|p: (String, Tone)| (p.0@, p.1))
}

/// Lines as their pieces of text with their tones.
pub open spec fn lines_view(lines: Seq<Vec<(String, Tone)>>) -> Seq<Seq<(Seq<char>, Tone)>> {
    lines.map_values(|l: Vec<(String, Tone)>| line_view(l@))
}

/// The tone of an option button.
pub open spec fn button_tone(highlighted: bool) -> Tone {
    if highlighted { Tone::ButtonSelected } else { Tone::Button }
}

/// The buttons of a choice in brackets, each followed by a space; the one at
/// `selected` is highlighted.
pub open spec fn option_pieces(options: Seq<String>, selected: nat) -> Seq<(Seq<char>, Tone)>
    decreases options.len(),
{
    if options.len() == 0 {
        Seq::empty()
    } else {
        let k = options.len() - 1;
        option_pieces(options.drop_last(), selected) + seq![
            ("["@ + options[k]@ + "]"@, button_tone(k == selected)),
            (" "@, Tone::Plain),
        ]
    }
}

/// The input line of a question: the typed text in brackets (followed by the suffix,
/// or by the euro sign for money), the buttons of a choice, or the buttons "[Ja]" and
/// "[Nein]".
pub open spec fn input_pieces(input_type: InputType, input: Seq<char>, selected: nat) -> Seq<(Seq<char>, Tone)> {
    match input_type {
        InputType::Text => seq![("  ["@, Tone::Plain), (input, Tone::Input), ("]"@, Tone::Plain)],
        InputType::TextWithSuffix(suffix) => seq![
            ("  ["@, Tone::Plain),
            (input, Tone::Input),
            ("]"@, Tone::Plain),
            (suffix@, Tone::Dim),
        ],
        InputType::Choice(options) => seq![("  "@, Tone::Plain)] + option_pieces(options@, selected),
        InputType::YesNo => seq![
            ("  "@, Tone::Plain),
            ("[Ja]"@, button_tone(selected == 0)),
            (" "@, Tone::Plain),
            ("[Nein]"@, button_tone(selected == 1)),
        ],
        InputType::Money => seq![("  ["@, Tone::Plain), (input, Tone::Input), ("] €"@, Tone::Plain)],
    }
}

/// A detail of a confirmation as a bulleted line of label and value.
pub open spec fn detail_line(d: (String, String)) -> Seq<(Seq<char>, Tone)> {
    seq![("  • "@, Tone::Plain), (d.0@ + ": "@, Tone::Dim), (d.1@, Tone::Normal)]
}

/// The prompt line of a question or a confirmation.
pub open spec fn prompt_line(prompt: Seq<char>) -> Seq<(Seq<char>, Tone)> {
    seq![("> "@, Tone::Marker), (prompt, Tone::Normal)]
}

/// The lines that show a step, given the typed text and the highlighted option: a
/// question shows its prompt, its subtitle if any, an empty line and the input line;
/// a confirmation its prompt, an empty line and a line per detail; a note and the
/// final note one line with their marker.
pub open spec fn step_text(step: ChatStep, input: Seq<char>, selected: nat) -> Seq<Seq<(Seq<char>, Tone)>> {
    match step {
        ChatStep::Question { prompt, subtitle, input_type } => {
            let sub: Seq<Seq<(Seq<char>, Tone)>> = match subtitle {
                Some(s) => seq![seq![("  "@ + s@, Tone::Dim)]],
                None => Seq::empty(),
            };
            seq![prompt_line(prompt@)] + sub + seq![Seq::empty(), input_pieces(input_type, input, selected)]
        },
        ChatStep::Confirmation { prompt, details } => seq![prompt_line(prompt@), Seq::empty()]
            + details@.map_values(|d: (String, String)| detail_line(d)),
        ChatStep::Info { message } => seq![seq![("ℹ "@, Tone::Info), (message@, Tone::Normal)]],
        ChatStep::Completed { message } => seq![seq![("✓ "@, Tone::Success), (message@, Tone::Success)]],
    }
}

/// The lines of the history: per answered step a check mark with the prompt, the
/// indented answer, and an empty line.
pub open spec fn history_text(history: Seq<(Seq<char>, Seq<char>, bool)>) -> Seq<Seq<(Seq<char>, Tone)>>
    decreases history.len(),
{
    if history.len() == 0 {
        Seq::empty()
    } else {
        let m = history.last();
        history_text(history.drop_last()) + seq![
            seq![("✓ "@, Tone::Success), (m.0, Tone::Dim)],
            seq![("  "@, Tone::Plain), (m.1, Tone::Normal)],
            Seq::empty(),
        ]
    }
}

/// The lines under the history: those of the current step, or the note that the
/// dialog is done once it is complete.
pub open spec fn current_text(v: ChatDialogView) -> Seq<Seq<(Seq<char>, Tone)>> {
    if v.current_step < v.steps.len() {
        step_text(v.steps[v.current_step as int], v.input, v.selected)
    } else if v.is_complete {
        seq![seq![("✓ "@, Tone::Success), ("Vorgang abgeschlossen"@, Tone::Success)]]
    } else {
        Seq::empty()
    }
}

/// A piece of text with its tone.
fn piece(text: &str, tone: Tone) -> (r: (String, Tone))
    ensures
        r.0@ == text@,
        r.1 == tone,
{
    (text.to_owned(), tone)
}

/// Appends a piece to a line.
fn push_piece(line: &mut Vec<(String, Tone)>, p: (String, Tone))
    ensures
        line_view(final(line)@) == line_view(old(line)@).push((p.0@, p.1)),
{
    let ghost before = line@;
    line.push(p);
    assert(line_view(line@) =~= line_view(before).push((p.0@, p.1)));
}

/// Appends a line to a list of lines.
fn push_line(lines: &mut Vec<Vec<(String, Tone)>>, l: Vec<(String, Tone)>)
    ensures
        lines_view(final(lines)@) == lines_view(old(lines)@).push(line_view(l@)),
{
    let ghost before = lines@;
    lines.push(l);
    assert(lines_view(lines@) =~= lines_view(before).push(line_view(l@)));
}

/// A line without pieces.
fn empty_line() -> (r: Vec<(String, Tone)>)
    ensures
        line_view(r@) == Seq::<(Seq<char>, Tone)>::empty(),
{
    let r: Vec<(String, Tone)> = Vec::new();
    assert(line_view(r@) =~= Seq::<(Seq<char>, Tone)>::empty());
    r
}

/// A line of two pieces.
fn two_pieces(a: &str, ta: Tone, b: &str, tb: Tone) -> (r: Vec<(String, Tone)>)
    ensures
        line_view(r@) == seq![(a@, ta), (b@, tb)],
{
    let mut line: Vec<(String, Tone)> = Vec::new();
    push_piece(&mut line, piece(a, ta));
    push_piece(&mut line, piece(b, tb));
    assert(line_view(line@) =~= seq![(a@, ta), (b@, tb)]);
    line
}

/// The text of an option button: the option in brackets.
fn bracketed(option: &str) -> (r: String)
    ensures
        r@ == "["@ + option@ + "]"@,
{
    let mut s = "[".to_owned();
    s.append(option);
    s.append("]");
    s
}

/// The input line of a question (see `input_pieces`).
fn input_line(input_type: &InputType, input: &String, selected: usize) -> (r: Vec<(String, Tone)>)
    ensures
        line_view(r@) == input_pieces(*input_type, input@, selected as nat),
{
    let mut line: Vec<(String, Tone)> = Vec::new();
    match input_type {
        InputType::Text => {
            push_piece(&mut line, piece("  [", Tone::Plain));
            push_piece(&mut line, (input.clone(), Tone::Input));
            push_piece(&mut line, piece("]", Tone::Plain));
        },
        InputType::TextWithSuffix(suffix) => {
            push_piece(&mut line, piece("  [", Tone::Plain));
            push_piece(&mut line, (input.clone(), Tone::Input));
            push_piece(&mut line, piece("]", Tone::Plain));
            push_piece(&mut line, (suffix.clone(), Tone::Dim));
        },
        InputType::Choice(options) => {
            push_piece(&mut line, piece("  ", Tone::Plain));
            let ghost start = line_view(line@);
            let mut i: usize = 0;
            assert(options@.take(0) =~= Seq::<String>::empty());
            while i < options.len()
                invariant
                    i <= options.len(),
                    line_view(line@) == start + option_pieces(options@.take(i as int), selected as nat),
                decreases options.len() - i,
            {
                let tone = if i == selected { Tone::ButtonSelected } else { Tone::Button };
                push_piece(&mut line, (bracketed(options[i].as_str()), tone));
                push_piece(&mut line, piece(" ", Tone::Plain));
                proof {
                    let t = options@.take(i + 1);
                    assert(t.drop_last() =~= options@.take(i as int));
                    assert(t[i as int] == options@[i as int]);
                }
                i = i + 1;
            }
            assert(options@.take(options.len() as int) =~= options@);
        },
        InputType::YesNo => {
            push_piece(&mut line, piece("  ", Tone::Plain));
            push_piece(&mut line, piece("[Ja]", if selected == 0 { Tone::ButtonSelected } else { Tone::Button }));
            push_piece(&mut line, piece(" ", Tone::Plain));
            push_piece(&mut line, piece("[Nein]", if selected == 1 { Tone::ButtonSelected } else { Tone::Button }));
        },
        InputType::Money => {
            push_piece(&mut line, piece("  [", Tone::Plain));
            push_piece(&mut line, (input.clone(), Tone::Input));
            push_piece(&mut line, piece("] €", Tone::Plain));
        },
    }
    assert(line_view(line@) =~= input_pieces(*input_type, input@, selected as nat));
    line
}

/// The lines that show `step` with the dialog's typed text and highlighted option (see
/// `step_text`).
pub fn step_lines(step: &ChatStep, dialog: &ChatDialog) -> (r: Vec<Vec<(String, Tone)>>)
    ensures
        lines_view(r@) == step_text(*step, dialog.input@, dialog.selected_option as nat),
{
    let mut lines: Vec<Vec<(String, Tone)>> = Vec::new();
    match step {
        ChatStep::Question { prompt, subtitle, input_type } => {
            push_line(&mut lines, two_pieces("> ", Tone::Marker, prompt.as_str(), Tone::Normal));
            match subtitle {
                Some(sub) => {
                    let mut text = "  ".to_owned();
                    text.append(sub.as_str());
                    let mut line = empty_line();
                    push_piece(&mut line, (text, Tone::Dim));
                    assert(line_view(line@) =~= seq![("  "@ + sub@, Tone::Dim)]);
                    push_line(&mut lines, line);
                },
                None => {},
            }
            push_line(&mut lines, empty_line());
            push_line(&mut lines, input_line(input_type, &dialog.input, dialog.selected_option));
            assert(lines_view(lines@) =~= step_text(*step, dialog.input@, dialog.selected_option as nat));
        },
        ChatStep::Confirmation { prompt, details } => {
            push_line(&mut lines, two_pieces("> ", Tone::Marker, prompt.as_str(), Tone::Normal));
            push_line(&mut lines, empty_line());
            let ghost start = lines_view(lines@);
            let mut i: usize = 0;
            while i < details.len()
                invariant
                    i <= details.len(),
                    lines_view(lines@) == start + details@.take(i as int).map_values(|d: (String, String)| detail_line(d)),
                decreases details.len() - i,
            {
                let mut label = details[i].0.clone();
                label.append(": ");
                let mut line: Vec<(String, Tone)> = Vec::new();
                push_piece(&mut line, piece("  • ", Tone::Plain));
                push_piece(&mut line, (label, Tone::Dim));
                push_piece(&mut line, (details[i].1.clone(), Tone::Normal));
                assert(line_view(line@) =~= detail_line(details@[i as int]));
                push_line(&mut lines, line);
                assert(details@.take(i + 1).map_values(|d: (String, String)| detail_line(d))
                    =~= details@.take(i as int).map_values(|d: (String, String)| detail_line(d)).push(detail_line(details@[i as int])));
                i = i + 1;
            }
            assert(details@.take(details.len() as int) =~= details@);
            assert(lines_view(lines@) =~= step_text(*step, dialog.input@, dialog.selected_option as nat));
        },
        ChatStep::Info { message } => {
            push_line(&mut lines, two_pieces("ℹ ", Tone::Info, message.as_str(), Tone::Normal));
            assert(lines_view(lines@) =~= step_text(*step, dialog.input@, dialog.selected_option as nat));
        },
        ChatStep::Completed { message } => {
            push_line(&mut lines, two_pieces("✓ ", Tone::Success, message.as_str(), Tone::Success));
            assert(lines_view(lines@) =~= step_text(*step, dialog.input@, dialog.selected_option as nat));
        },
    }
    lines
}

impl ChatDialog {
    /// The lines of the answered steps (see `history_text`).
    pub fn history_lines(&self) -> (r: Vec<Vec<(String, Tone)>>)
        ensures
            lines_view(r@) == history_text(self@.history),
    {
        let mut lines: Vec<Vec<(String, Tone)>> = Vec::new();
        let mut i: usize = 0;
        let ghost f = |m: ChatMessage| chat_message_view(m);
        assert(self.history@.take(0).map_values(f) =~= Seq::<(Seq<char>, Seq<char>, bool)>::empty());
        while i < self.history.len()
            invariant
                i <= self.history.len(),
                f == (|m: ChatMessage| chat_message_view(m)),
                lines_view(lines@) == history_text(self.history@.take(i as int).map_values(f)),
            decreases self.history.len() - i,
        {
            let m = &self.history[i];
            let ghost prev = lines_view(lines@);
            push_line(&mut lines, two_pieces("✓ ", Tone::Success, m.prompt.as_str(), Tone::Dim));
            push_line(&mut lines, two_pieces("  ", Tone::Plain, m.response.as_str(), Tone::Normal));
            push_line(&mut lines, empty_line());
            proof {
                let h = self.history@.take(i + 1).map_values(f);
                assert(h.drop_last() =~= self.history@.take(i as int).map_values(f));
                let e = h.last();
                assert(e == chat_message_view(self.history@[i as int]));
                assert(lines_view(lines@) =~= prev + seq![
                    seq![("✓ "@, Tone::Success), (e.0, Tone::Dim)],
                    seq![("  "@, Tone::Plain), (e.1, Tone::Normal)],
                    Seq::<(Seq<char>, Tone)>::empty(),
                ]);
            }
            i = i + 1;
        }
        assert(self.history@.take(self.history.len() as int) =~= self.history@);
        lines
    }

    /// The lines under the history (see `current_text`).
    pub fn current_lines(&self) -> (r: Vec<Vec<(String, Tone)>>)
        ensures
            lines_view(r@) == current_text(self@),
    {
        match self.current_step() {
            Some(step) => step_lines(step, self),
            None => {
                let mut lines: Vec<Vec<(String, Tone)>> = Vec::new();
                if self.is_complete {
                    push_line(&mut lines, two_pieces("✓ ", Tone::Success, "Vorgang abgeschlossen", Tone::Success));
                }
                assert(lines_view(lines@) =~= current_text(self@));
                lines
            },
        }
    }
}

/// The character position at a char boundary lies within the text.
pub proof fn char_index_bound(s: Seq<char>, b: int)
    ensures
        char_index_at_byte(s, b) matches Some(k) ==> 0 <= k <= s.len(),
    decreases s.len(),
{
    if b != 0 && s.len() > 0 && b >= crate::text::utf8_width(s[0]) {
        char_index_bound(s.subrange(1, s.len() as int), b - crate::text::utf8_width(s[0]));
    }
}

/// Inserting a character keeps the character position of a char boundary at or before
/// the insertion.
proof fn char_index_after_insert(s: Seq<char>, b: int, ch: char)
    requires
        char_index_at_byte(s, b) is Some,
    ensures
        char_index_at_byte(s.insert(char_index_at_byte(s, b)->0, ch), b) == char_index_at_byte(s, b),
    decreases s.len(),
{
    char_index_bound(s, b);
    let k = char_index_at_byte(s, b)->0;
    if b != 0 {
        let t = s.subrange(1, s.len() as int);
        assert(s.len() > 0 && b >= crate::text::utf8_width(s[0]));
        assert(char_index_at_byte(t, b - crate::text::utf8_width(s[0])) == Some(k - 1));
        char_index_bound(t, b - crate::text::utf8_width(s[0]));
        assert(1 <= k <= s.len());
        char_index_after_insert(t, b - crate::text::utf8_width(s[0]), ch);
        assert(s.insert(k, ch).subrange(1, s.len() as int + 1) =~= t.insert(k - 1, ch));
        assert(s.insert(k, ch)[0] == s[0]);
    }
}

/// Deleting the character before the cursor right after typing it gives back the
/// dialog as it was, and is allowed there. This holds wherever the cursor is at a
/// character boundary; `push_char` asks besides only that the cursor be below
/// `usize::MAX`, where moving it on by one would overflow.
pub proof fn delete_undoes_typing(v: ChatDialogView, ch: char)
    requires
        char_index_at_byte(v.input, v.cursor as int) is Some,
    ensures
        char_index_at_byte(typed_view(v, ch).input, typed_view(v, ch).cursor - 1) matches Some(k)
            && k < typed_view(v, ch).input.len(),
        deleted_view(typed_view(v, ch)) == v,
{
    let k = char_index_at_byte(v.input, v.cursor as int)->0;
    char_index_bound(v.input, v.cursor as int);
    char_index_after_insert(v.input, v.cursor as int, ch);
    assert(v.input.insert(k, ch).remove(k) =~= v.input);
}

/// Going back right after confirming a question or a confirmation shows that step
/// again with the history it had before, with empty input and the first option.
pub proof fn go_back_undoes_confirm(v: ChatDialogView)
    requires
        v.current_step < v.steps.len(),
        v.steps[v.current_step as int] is Question || v.steps[v.current_step as int] is Confirmation,
    ensures
        go_back_view(confirm_view(v)).current_step == v.current_step,
        go_back_view(confirm_view(v)).history == v.history,
        go_back_view(confirm_view(v)).steps == v.steps,
        go_back_view(confirm_view(v)).input == Seq::<char>::empty(),
        go_back_view(confirm_view(v)).selected == 0,
{
    assert(v.history.push(history_entry(v.steps[v.current_step as int], v.input, v.selected)->0).drop_last() =~= v.history);
}

} // verus!
