//! Choosing one item of a list of labels: full screen with the arrow keys, or,
//! where the terminal cannot be had, by a number typed at a prompt.
//!
//! The selector decides and never touches the terminal. It names the action to
//! carry out next; the caller carries it out and reports what happened.

use crate::fault::{fault_text, Fault};
use crate::text::{
    append_decimal, decimal, least, numeral_capped, numeral_value, texts, trim, trimmed,
};
use vstd::prelude::*;
use vstd::string::StringExecFns;

verus! {

/// How a selection ended.
#[derive(Clone, Copy, Debug, PartialEq, Eq, Structural)]
pub enum Choice {
    /// The item at this index was chosen.
    Selected(usize),
    /// The user left without choosing.
    Cancelled,
}

/// A key press, as far as the selector tells keys apart.
#[derive(Clone, Copy, Debug, PartialEq, Eq, Structural)]
pub enum Key {
    Up,
    Down,
    Enter,
    Esc,
    Char(char),
    Other,
}

/// What a key press asks for.
#[derive(Clone, Copy, Debug, PartialEq, Eq, Structural)]
pub enum Command {
    Next,
    Previous,
    Confirm,
    Quit,
    Nothing,
}

/// The command bound to `key`: the arrows or `j` and `k` move, Enter confirms,
/// Esc or `q` quits.
pub open spec fn command_of(key: Key) -> Command {
    match key {
        Key::Down => Command::Next,
        Key::Up => Command::Previous,
        Key::Enter => Command::Confirm,
        Key::Esc => Command::Quit,
        Key::Char(c) => if c == 'j' {
            Command::Next
        } else if c == 'k' {
            Command::Previous
        } else if c == 'q' {
            Command::Quit
        } else {
            Command::Nothing
        },
        Key::Other => Command::Nothing,
    }
}

/// The line that tells the user which keys do what.
pub open spec fn help_text() -> Seq<char> {
    "Use ↑/↓ or j/k to navigate, Enter to select, q/Esc to quit"@
}

/// The line that tells the user which keys do what.
pub fn help_notice() -> (r: String)
    ensures
        r@ == help_text(),
{
    String::from_str("Use ↑/↓ or j/k to navigate, Enter to select, q/Esc to quit")
}

/// The index after `i` in a list of `len` items, the first after the last.
pub open spec fn next_index(i: nat, len: nat) -> nat
    recommends
        len > 0,
{
    (((i + 1) as int) % (len as int)) as nat
}

/// The index before `i` in a list of `len` items, the last before the first.
pub open spec fn previous_index(i: nat, len: nat) -> nat
    recommends
        len > 0,
{
    (((i + len - 1) as int) % (len as int)) as nat
}

/// The line that the prompt shows for the item at `index`.
pub open spec fn prompt_line(index: nat, label: Seq<char>) -> Seq<char> {
    seq!['['] + decimal(index) + seq![']', ' '] + label
}

/// What a line typed at the prompt chooses among `len` items. Around the line
/// white space does not count. `q` and `quit` cancel; a numeral chooses
/// the item of that index, or the last item where the index is too large;
/// anything else chooses the first item. Of no items nothing can be chosen.
pub open spec fn choice_of(line: Seq<char>, len: nat) -> Choice {
    let word = trimmed(line);
    if len == 0 || word == seq!['q'] || word == seq!['q', 'u', 'i', 't'] {
        Choice::Cancelled
    } else {
        match numeral_value(word) {
            Some(n) => Choice::Selected(least(n, (len - 1) as nat) as usize),
            None => Choice::Selected(0),
        }
    }
}

/// The labels of a list and the index of the one that is highlighted.
pub struct ListView {
    pub labels: Seq<Seq<char>>,
    pub selected: Option<nat>,
}

impl ListView {
    /// An item is highlighted exactly when there is one, and it is one of the list.
    pub open spec fn wf(self) -> bool {
        match self.selected {
            Some(i) => i < self.labels.len(),
            None => self.labels.len() == 0,
        }
    }

    /// The list once the highlight has moved on by one item.
    pub open spec fn after_next(self) -> ListView {
        if self.labels.len() == 0 {
            self
        } else {
            ListView {
                labels: self.labels,
                selected: Some(
                    match self.selected {
                        Some(i) => next_index(i, self.labels.len()),
                        None => 0,
                    },
                ),
            }
        }
    }

    /// The list once the highlight has moved back by one item.
    pub open spec fn after_previous(self) -> ListView {
        if self.labels.len() == 0 {
            self
        } else {
            ListView {
                labels: self.labels,
                selected: Some(
                    match self.selected {
                        Some(i) => previous_index(i, self.labels.len()),
                        None => 0,
                    },
                ),
            }
        }
    }

    /// What confirming chooses: the highlighted item.
    pub open spec fn chosen(self) -> Choice {
        match self.selected {
            Some(i) => Choice::Selected(i as usize),
            None => Choice::Cancelled,
        }
    }

    /// The list after `count` moves forward.
    pub open spec fn after_nexts(self, count: nat) -> ListView
        decreases count,
    {
        if count == 0 {
            self
        } else {
            self.after_nexts((count - 1) as nat).after_next()
        }
    }

    /// The list after `count` moves back.
    pub open spec fn after_previouses(self, count: nat) -> ListView
        decreases count,
    {
        if count == 0 {
            self
        } else {
            self.after_previouses((count - 1) as nat).after_previous()
        }
    }
}

/// A list of labels with one of them highlighted, for as long as a selection
/// lasts.
pub struct SelectableList {
    labels: Vec<String>,
    selected: Option<usize>,
}

impl View for SelectableList {
    type V = ListView;

    closed spec fn view(&self) -> ListView {
        ListView {
            labels: texts(self.labels@),
            selected: match self.selected {
                Some(i) => Some(i as nat),
                None => None,
            },
        }
    }
}

impl SelectableList {
    #[verifier::type_invariant]
    spec fn inv(self) -> bool {
        self@.wf()
    }

    /// A list of `labels` with the first one highlighted.
    pub fn new(labels: Vec<String>) -> (r: SelectableList)
        ensures
            r@.labels == texts(labels@),
            r@.selected == (if labels.len() == 0 {
                None
            } else {
                Some(0nat)
            }),
            r@.wf(),
    {
        let selected: Option<usize> = if labels.len() == 0 {
            None
        } else {
            Some(0)
        };
        SelectableList { labels, selected }
    }

    /// The number of items.
    pub fn len(&self) -> (r: usize)
        ensures
            r == self@.labels.len(),
            self@.wf(),
    {
        proof {
            use_type_invariant(self);
        }
        self.labels.len()
    }

    /// The index of the highlighted item.
    pub fn selected(&self) -> (r: Option<usize>)
        ensures
            self@.wf(),
            match r {
                Some(i) => self@.selected == Some(i as nat),
                None => self@.selected is None,
            },
    {
        proof {
            use_type_invariant(self);
        }
        self.selected
    }

    /// The labels, in order.
    pub fn labels(&self) -> (r: &Vec<String>)
        ensures
            texts(r@) == self@.labels,
    {
        &self.labels
    }

    /// Moves the highlight on by one item, from the last item to the first.
    pub fn next(&mut self)
        ensures
            old(self)@.wf(),
            final(self)@.wf(),
            final(self)@ == old(self)@.after_next(),
        no_unwind
    {
        proof {
            use_type_invariant(&*self);
        }
        let len: usize = self.labels.len();
        match self.selected {
            Some(i) => {
                assert(next_index(i as nat, len as nat) == (if i + 1 == len {
                    0
                } else {
                    i + 1
                })) by (nonlinear_arith)
                    requires
                        0 <= i < len,
                ;
                if i + 1 >= len {
                    self.selected = Some(0);
                } else {
                    self.selected = Some(i + 1);
                }
            },
            None => {},
        }
    }

    /// Moves the highlight back by one item, from the first item to the last.
    pub fn previous(&mut self)
        ensures
            old(self)@.wf(),
            final(self)@.wf(),
            final(self)@ == old(self)@.after_previous(),
        no_unwind
    {
        proof {
            use_type_invariant(&*self);
        }
        let len: usize = self.labels.len();
        match self.selected {
            Some(i) => {
                assert(previous_index(i as nat, len as nat) == (if i == 0 {
                    len - 1
                } else {
                    i - 1
                })) by (nonlinear_arith)
                    requires
                        0 <= i < len,
                ;
                if i == 0 {
                    self.selected = Some(len - 1);
                } else {
                    self.selected = Some(i - 1);
                }
            },
            None => {},
        }
    }

    /// The lines that the prompt shows: each label after its index in square
    /// brackets.
    pub fn prompt_lines(&self) -> (r: Vec<String>)
        ensures
            r.len() == self@.labels.len(),
            forall|i: int|
                0 <= i < r.len() ==> (#[trigger] r[i])@ == prompt_line(
                    i as nat,
                    self@.labels[i],
                ),
    {
        let mut lines: Vec<String> = Vec::new();
        let mut i: usize = 0;
        while i < self.labels.len()
            invariant
                i <= self.labels.len(),
                lines.len() == i,
                forall|j: int|
                    0 <= j < i ==> (#[trigger] lines[j])@ == prompt_line(
                        j as nat,
                        self@.labels[j],
                    ),
            decreases self.labels.len() - i,
        {
            let mut line = String::from_str("[");
            append_decimal(&mut line, i);
            line.append("] ");
            line.append(self.labels[i].as_str());
            proof {
                reveal_strlit("[");
                reveal_strlit("] ");
                assert("["@ =~= seq!['[']);
                assert("] "@ =~= seq![']', ' ']);
                assert(self@.labels[i as int] == self.labels@[i as int]@);
            }
            lines.push(line);
            i += 1;
        }
        lines
    }
}

/// The command bound to `key`.
pub fn command(key: Key) -> (r: Command)
    ensures
        r == command_of(key),
{
    match key {
        Key::Down => Command::Next,
        Key::Up => Command::Previous,
        Key::Enter => Command::Confirm,
        Key::Esc => Command::Quit,
        Key::Char(c) => {
            if c == 'j' {
                Command::Next
            } else if c == 'k' {
                Command::Previous
            } else if c == 'q' {
                Command::Quit
            } else {
                Command::Nothing
            }
        },
        Key::Other => Command::Nothing,
    }
}

/// Whether `word` spells `q` or `quit`.
fn is_quit_word(word: &Vec<char>) -> (r: bool)
    ensures
        r == (word@ == seq!['q'] || word@ == seq!['q', 'u', 'i', 't']),
{
    if word.len() == 1 {
        let r = word[0] == 'q';
        assert(r == (word@ =~= seq!['q']));
        r
    } else if word.len() == 4 {
        let r = word[0] == 'q' && word[1] == 'u' && word[2] == 'i' && word[3] == 't';
        assert(r == (word@ =~= seq!['q', 'u', 'i', 't']));
        r
    } else {
        false
    }
}

/// What the line typed at the prompt chooses among `len` items.
pub fn parse_choice(line: &str, len: usize) -> (r: Choice)
    ensures
        r == choice_of(line@, len as nat),
        r matches Choice::Selected(i) ==> i < len,
{
    if len == 0 {
        return Choice::Cancelled;
    }
    let word = trim(line);
    if is_quit_word(&word) {
        return Choice::Cancelled;
    }
    match numeral_capped(&word, len - 1) {
        Some(index) => Choice::Selected(index),
        None => Choice::Selected(0),
    }
}

/// What the selector waits for.
#[derive(Clone, Copy, Debug, PartialEq, Eq, Structural)]
pub enum Phase {
    /// The terminal is being captured.
    Acquiring,
    /// The list is being drawn.
    Drawing,
    /// The next input is awaited.
    Reading,
    /// The terminal is being released: to end with the choice, or, with none,
    /// to go on at the prompt.
    Releasing(Option<Choice>),
    /// A line typed at the prompt is awaited.
    Prompting,
    /// The selection has ended.
    Done(Choice),
}

/// What the caller is to do next.
#[derive(Clone, Copy, Debug, PartialEq, Eq, Structural)]
pub enum Action {
    /// Capture the terminal for the full-screen list.
    Acquire,
    /// Draw the list with its highlight.
    Draw,
    /// Wait for the next input.
    Read,
    /// Give the terminal back, whatever state the capture is in.
    Release,
    /// Print the prompt's lines and read one line.
    Prompt,
    /// Nothing more: the selection has ended with this choice.
    Finish(Choice),
}

/// What came of the last action.
#[derive(Debug, PartialEq, Eq)]
pub enum Event {
    /// The terminal is captured.
    Acquired,
    /// The list is drawn.
    Drawn,
    /// A key was pressed.
    Key(Key),
    /// An input arrived that is no key press.
    Idle,
    /// The terminal was given back, or could not be.
    Released,
    /// A line was typed at the prompt.
    Line(String),
    /// The action failed.
    Failed,
}

/// A selector: its texts, its list and what it waits for.
pub struct SelectorView {
    pub title: Seq<char>,
    pub prompt: Seq<char>,
    pub list: ListView,
    pub phase: Phase,
}

impl SelectorView {
    /// The list is well formed, a choice that is kept is an item of the list,
    /// and of no items nothing is ever asked.
    pub open spec fn wf(self) -> bool {
        &&& self.list.wf()
        &&& self.list.labels.len() <= usize::MAX
        &&& self.list.labels.len() == 0 ==> self.phase == Phase::Done(Choice::Cancelled)
        &&& self.phase matches Phase::Done(Choice::Selected(i)) ==> i < self.list.labels.len()
        &&& self.phase matches Phase::Releasing(Some(Choice::Selected(i))) ==> i
            < self.list.labels.len()
    }

    /// The phase in which a selection over `len` items starts.
    pub open spec fn first_phase(len: nat) -> Phase {
        if len == 0 {
            Phase::Done(Choice::Cancelled)
        } else {
            Phase::Acquiring
        }
    }

    /// The selector that a selection over `labels` starts with: the first
    /// label highlighted, if there is one.
    pub open spec fn fresh(title: Seq<char>, prompt: Seq<char>, labels: Seq<Seq<char>>) -> SelectorView {
        SelectorView {
            title,
            prompt,
            list: ListView {
                labels,
                selected: if labels.len() == 0 {
                    None
                } else {
                    Some(0nat)
                },
            },
            phase: Self::first_phase(labels.len()),
        }
    }

    /// What the prompt prints: that the full screen is not to be had, one
    /// line for each item, and the question.
    pub open spec fn prompt_screen(self) -> Seq<Seq<char>> {
        seq![fault_text(Fault::TerminalUnavailable)] + Seq::new(
            self.list.labels.len(),
            |i: int| prompt_line(i as nat, self.list.labels[i]),
        ) + seq![self.prompt]
    }

    /// The action that the selector waits for.
    pub open spec fn pending(self) -> Action {
        match self.phase {
            Phase::Acquiring => Action::Acquire,
            Phase::Drawing => Action::Draw,
            Phase::Reading => Action::Read,
            Phase::Releasing(_) => Action::Release,
            Phase::Prompting => Action::Prompt,
            Phase::Done(choice) => Action::Finish(choice),
        }
    }

    /// This selector in another phase.
    pub open spec fn at(self, phase: Phase) -> SelectorView {
        SelectorView { title: self.title, prompt: self.prompt, list: self.list, phase }
    }

    /// The selector after `event`. An event that does not report the success
    /// of the pending action counts as its failure. When capturing, drawing or
    /// reading fails, the terminal is released and the prompt takes over. A
    /// choice made on the full screen is kept until the terminal is released.
    pub open spec fn after(self, event: Event) -> SelectorView {
        match self.phase {
            Phase::Acquiring => match event {
                Event::Acquired => self.at(Phase::Drawing),
                _ => self.at(Phase::Releasing(None)),
            },
            Phase::Drawing => match event {
                Event::Drawn => self.at(Phase::Reading),
                _ => self.at(Phase::Releasing(None)),
            },
            Phase::Reading => match event {
                Event::Key(key) => match command_of(key) {
                    Command::Next => SelectorView {
                        title: self.title,
                        prompt: self.prompt,
                        list: self.list.after_next(),
                        phase: Phase::Drawing,
                    },
                    Command::Previous => SelectorView {
                        title: self.title,
                        prompt: self.prompt,
                        list: self.list.after_previous(),
                        phase: Phase::Drawing,
                    },
                    Command::Confirm => self.at(Phase::Releasing(Some(self.list.chosen()))),
                    Command::Quit => self.at(Phase::Releasing(Some(Choice::Cancelled))),
                    Command::Nothing => self.at(Phase::Drawing),
                },
                Event::Idle => self.at(Phase::Drawing),
                _ => self.at(Phase::Releasing(None)),
            },
            Phase::Releasing(kept) => match kept {
                Some(choice) => self.at(Phase::Done(choice)),
                None => self.at(Phase::Prompting),
            },
            Phase::Prompting => match event {
                Event::Line(line) => self.at(
                    Phase::Done(choice_of(line@, self.list.labels.len())),
                ),
                _ => self.at(Phase::Done(Choice::Cancelled)),
            },
            Phase::Done(_) => self,
        }
    }

    /// The selector after each of `events` in turn.
    pub open spec fn after_all(self, events: Seq<Event>) -> SelectorView
        decreases events.len(),
    {
        if events.len() == 0 {
            self
        } else {
            self.after_all(events.drop_last()).after(events.last())
        }
    }

    /// Whether the terminal may be captured once the caller has carried out
    /// each action that the selector asked for while `events` came in, the
    /// terminal being free at the start. An attempt to capture counts as a
    /// capture even where it fails; only a release frees the terminal.
    pub open spec fn captured_after(self, events: Seq<Event>) -> bool
        decreases events.len(),
    {
        if events.len() == 0 {
            false
        } else {
            match self.after_all(events.drop_last()).pending() {
                Action::Acquire => true,
                Action::Release => false,
                _ => self.captured_after(events.drop_last()),
            }
        }
    }
}

/// The state machine of one selection.
pub struct Selector {
    title: String,
    prompt: String,
    list: SelectableList,
    phase: Phase,
}

impl View for Selector {
    type V = SelectorView;

    closed spec fn view(&self) -> SelectorView {
        SelectorView {
            title: self.title@,
            prompt: self.prompt@,
            list: self.list@,
            phase: self.phase,
        }
    }
}

impl Selector {
    #[verifier::type_invariant]
    spec fn inv(self) -> bool {
        self@.wf()
    }

    /// A selector over `labels`, with the `title` of the full-screen list and
    /// the `prompt` of the fallback. Over no labels the selection has ended at
    /// once, cancelled; else the first action is to capture the terminal.
    pub fn new(title: String, prompt: String, labels: Vec<String>) -> (r: Selector)
        ensures
            r@.wf(),
            r@ == SelectorView::fresh(title@, prompt@, texts(labels@)),
    {
        let phase = if labels.len() == 0 {
            Phase::Done(Choice::Cancelled)
        } else {
            Phase::Acquiring
        };
        let list = SelectableList::new(labels);
        Selector { title, prompt, list, phase }
    }

    /// The title of the full-screen list.
    pub fn title(&self) -> (r: &String)
        ensures
            r@ == self@.title,
    {
        &self.title
    }

    /// The question that the prompt asks.
    pub fn prompt(&self) -> (r: &String)
        ensures
            r@ == self@.prompt,
    {
        &self.prompt
    }

    /// The list with its highlight.
    pub fn list(&self) -> (r: &SelectableList)
        ensures
            r@ == self@.list,
    {
        &self.list
    }

    /// What the prompt prints, line by line.
    pub fn prompt_screen(&self) -> (r: Vec<String>)
        ensures
            texts(r@) == self@.prompt_screen(),
    {
        let mut lines = self.list.prompt_lines();
        let ghost items = texts(lines@);
        assert(items =~= Seq::new(
            self@.list.labels.len(),
            |i: int| prompt_line(i as nat, self@.list.labels[i]),
        ));
        lines.insert(0, Fault::TerminalUnavailable.describe());
        lines.push(self.prompt.clone());
        assert(texts(lines@) =~= self@.prompt_screen());
        lines
    }

    /// What the selector waits for.
    pub fn phase(&self) -> (r: Phase)
        ensures
            r == self@.phase,
            self@.wf(),
    {
        proof {
            use_type_invariant(self);
        }
        self.phase
    }

    /// The action that the selector waits for.
    pub fn pending(&self) -> (r: Action)
        ensures
            r == self@.pending(),
            self@.wf(),
    {
        proof {
            use_type_invariant(self);
        }
        match self.phase {
            Phase::Acquiring => Action::Acquire,
            Phase::Drawing => Action::Draw,
            Phase::Reading => Action::Read,
            Phase::Releasing(_) => Action::Release,
            Phase::Prompting => Action::Prompt,
            Phase::Done(choice) => Action::Finish(choice),
        }
    }

    /// Takes in what came of the pending action and returns the next one.
    pub fn step(&mut self, event: Event) -> (next: Action)
        ensures
            old(self)@.wf(),
            final(self)@.wf(),
            final(self)@ == old(self)@.after(event),
            next == final(self)@.pending(),
    {
        proof {
            use_type_invariant(&*self);
            lemma_after_keeps_wf(self@, event);
        }
        match self.phase {
            Phase::Acquiring => {
                match event {
                    Event::Acquired => {
                        self.phase = Phase::Drawing;
                    },
                    _ => {
                        self.phase = Phase::Releasing(None);
                    },
                }
            },
            Phase::Drawing => {
                match event {
                    Event::Drawn => {
                        self.phase = Phase::Reading;
                    },
                    _ => {
                        self.phase = Phase::Releasing(None);
                    },
                }
            },
            Phase::Reading => {
                match event {
                    Event::Key(key) => {
                        match command(key) {
                            Command::Next => {
                                self.list.next();
                                self.phase = Phase::Drawing;
                            },
                            Command::Previous => {
                                self.list.previous();
                                self.phase = Phase::Drawing;
                            },
                            Command::Confirm => {
                                let choice = match self.list.selected() {
                                    Some(i) => Choice::Selected(i),
                                    None => Choice::Cancelled,
                                };
                                self.phase = Phase::Releasing(Some(choice));
                            },
                            Command::Quit => {
                                self.phase = Phase::Releasing(Some(Choice::Cancelled));
                            },
                            Command::Nothing => {
                                self.phase = Phase::Drawing;
                            },
                        }
                    },
                    Event::Idle => {
                        self.phase = Phase::Drawing;
                    },
                    _ => {
                        self.phase = Phase::Releasing(None);
                    },
                }
            },
            Phase::Releasing(kept) => {
                match kept {
                    Some(choice) => {
                        self.phase = Phase::Done(choice);
                    },
                    None => {
                        self.phase = Phase::Prompting;
                    },
                }
            },
            Phase::Prompting => {
                match event {
                    Event::Line(line) => {
                        let choice = parse_choice(line.as_str(), self.list.len());
                        self.phase = Phase::Done(choice);
                    },
                    _ => {
                        self.phase = Phase::Done(Choice::Cancelled);
                    },
                }
            },
            Phase::Done(_) => {},
        }
        self.pending()
    }
}

/// What a line chooses is an item of the list.
pub proof fn lemma_choice_in_range(line: Seq<char>, len: nat)
    requires
        len <= usize::MAX,
    ensures
        choice_of(line, len) matches Choice::Selected(i) ==> i < len,
        len == 0 ==> choice_of(line, len) == Choice::Cancelled,
{
}

/// Moving the highlight keeps a list well formed and its labels as they are.
pub proof fn lemma_moves_keep_wf(list: ListView)
    requires
        list.wf(),
    ensures
        list.after_next().wf(),
        list.after_previous().wf(),
        list.after_next().labels == list.labels,
        list.after_previous().labels == list.labels,
{
    let len = list.labels.len();
    if let Some(i) = list.selected {
        assert(next_index(i, len) < len && previous_index(i, len) < len) by (nonlinear_arith)
            requires
                0 <= i < len,
        ;
    }
}

/// No event leads a well-formed selector to one that is not.
pub proof fn lemma_after_keeps_wf(s: SelectorView, event: Event)
    requires
        s.wf(),
    ensures
        s.after(event).wf(),
        s.after(event).title == s.title,
        s.after(event).prompt == s.prompt,
        s.after(event).list.labels == s.list.labels,
{
    lemma_moves_keep_wf(s.list);
    if let Event::Line(line) = event {
        lemma_choice_in_range(line@, s.list.labels.len());
    }
}

} // verus!
