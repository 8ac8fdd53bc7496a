//! The interview that fills a [`Readme`], as a state machine.
//!
//! A [`Survey`] says which question comes next ([`Survey::prompt`]); the
//! caller puts it to the user and hands the reply back
//! ([`Survey::answer`]), until the prompt is [`Prompt::Finished`]. The
//! questions come in a fixed order: the name, the description, the image,
//! the commands, the usage example.

use vstd::prelude::*;

use crate::document::{LinkView, Readme, ReadmeView, COMMAND_COUNT};

verus! {

/// Where the interview stands.
#[derive(Clone, Copy, Debug, PartialEq, Eq, Structural)]
pub enum Step {
    /// Asking for the project's name.
    Name,
    /// Asking whether to add a description.
    AskDescription,
    /// Waiting for the description from the editor.
    EditDescription,
    /// Asking whether to add an image.
    AskImage,
    /// Asking for the image's alt text.
    ImageText,
    /// Asking for the image's URL.
    ImageUrl,
    /// Asking which commands to add.
    ChooseCommands,
    /// Asking for the next chosen command.
    Command,
    /// Asking whether to add a usage example.
    AskUsage,
    /// Waiting for the usage example from the editor.
    EditUsage,
    /// The interview is over.
    Done,
}

/// What to put to the user next.
pub enum Prompt {
    /// A line of text, offering `default`.
    Input { prompt: String, default: String },
    /// A yes or no question.
    Confirm { prompt: String },
    /// A choice of any number of `items`, answered by their positions.
    Select { prompt: String, items: Vec<String> },
    /// Text from an external editor that opens on empty content.
    Edit,
    /// Nothing: the interview is over.
    Finished,
}

/// The value of a [`Prompt`].
pub enum PromptView {
    Input { prompt: Seq<char>, default: Seq<char> },
    Confirm { prompt: Seq<char> },
    Select { prompt: Seq<char>, items: Seq<Seq<char>> },
    Edit,
    Finished,
}

impl View for Prompt {
    type V = PromptView;

    open spec fn view(&self) -> PromptView {
        match self {
            Prompt::Input { prompt, default } => PromptView::Input {
                prompt: prompt@,
                default: default@,
            },
            Prompt::Confirm { prompt } => PromptView::Confirm { prompt: prompt@ },
            Prompt::Select { prompt, items } => PromptView::Select {
                prompt: prompt@,
                items: items@.map_values(|s: String| s@),
            },
            Prompt::Edit => PromptView::Edit,
            Prompt::Finished => PromptView::Finished,
        }
    }
}

/// The user's reply to a [`Prompt`].
pub enum Answer {
    /// The line entered at an `Input`.
    Text(String),
    /// The reply to a `Confirm`.
    Confirmed(bool),
    /// The positions chosen at a `Select`.
    Selected(Vec<usize>),
    /// What the editor returned: nothing when the user gave no content.
    Edited(Option<String>),
}

/// The value of an [`Answer`].
pub enum AnswerView {
    Text(Seq<char>),
    Confirmed(bool),
    Selected(Seq<usize>),
    Edited(Option<Seq<char>>),
}

impl View for Answer {
    type V = AnswerView;

    open spec fn view(&self) -> AnswerView {
        match self {
            Answer::Text(s) => AnswerView::Text(s@),
            Answer::Confirmed(b) => AnswerView::Confirmed(*b),
            Answer::Selected(v) => AnswerView::Selected(v@),
            Answer::Edited(o) => AnswerView::Edited(
                match o {
                    Some(s) => Some(s@),
                    None => None,
                },
            ),
        }
    }
}

/// The label of the command at position `k`, also its prompt.
pub open spec fn command_label(k: int) -> Seq<char> {
    if k == 0 {
        "Command to install the dependencies"@
    } else if k == 1 {
        "Command to build the project"@
    } else if k == 2 {
        "Command to run the units tests"@
    } else {
        "Command to install the project"@
    }
}

/// The labels of the four commands, in order.
pub open spec fn command_labels() -> Seq<Seq<char>> {
    seq![command_label(0), command_label(1), command_label(2), command_label(3)]
}

/// Every position in `v` is that of a command.
pub open spec fn all_commands(v: Seq<usize>) -> bool {
    forall|i: int| 0 <= i < v.len() ==> v[i] < COMMAND_COUNT
}

/// The value of a [`Survey`].
pub struct SurveyView {
    pub readme: ReadmeView,
    pub step: Step,
    pub selected: Seq<usize>,
    pub pos: nat,
}

/// After the chosen command at `pos`, ask for the next one, or move on to
/// the usage example when none is left.
pub open spec fn step_at(selected: Seq<usize>, pos: nat) -> Step {
    if pos < selected.len() {
        Step::Command
    } else {
        Step::AskUsage
    }
}

/// The new text of a field that the editor was asked for: what it returned,
/// or the old text when it returned nothing.
pub open spec fn edited(old_text: Seq<char>, o: Option<Seq<char>>) -> Seq<char> {
    match o {
        Some(t) => t,
        None => old_text,
    }
}

impl Step {
    /// The place of this step in the interview's order.
    pub open spec fn rank(self) -> nat {
        match self {
            Step::Name => 0,
            Step::AskDescription => 1,
            Step::EditDescription => 2,
            Step::AskImage => 3,
            Step::ImageText => 4,
            Step::ImageUrl => 5,
            Step::ChooseCommands => 6,
            Step::Command => 7,
            Step::AskUsage => 8,
            Step::EditUsage => 9,
            Step::Done => 10,
        }
    }
}

impl SurveyView {
    /// The chosen commands are all known, and `pos` points at one of them
    /// while they are asked for.
    pub open spec fn wf(self) -> bool {
        &&& all_commands(self.selected)
        &&& self.pos <= self.selected.len()
        &&& self.step is Command ==> self.pos < self.selected.len()
    }

    /// The question to ask at this point.
    pub open spec fn prompt(self) -> PromptView {
        match self.step {
            Step::Name => PromptView::Input { prompt: "Project's name"@, default: self.readme.name },
            Step::AskDescription => PromptView::Confirm {
                prompt: "Would you like to add a description?"@,
            },
            Step::EditDescription => PromptView::Edit,
            Step::AskImage => PromptView::Confirm { prompt: "Would you like to add an image?"@ },
            Step::ImageText => PromptView::Input {
                prompt: "Image's alt text"@,
                default: self.readme.image.text,
            },
            Step::ImageUrl => PromptView::Input {
                prompt: "Image's URL"@,
                default: self.readme.image.url,
            },
            Step::ChooseCommands => PromptView::Select {
                prompt: "Choose the commands you want to add"@,
                items: command_labels(),
            },
            Step::Command => PromptView::Input {
                prompt: command_label(self.selected[self.pos as int] as int),
                default: self.readme.commands.get(self.selected[self.pos as int] as int),
            },
            Step::AskUsage => PromptView::Confirm {
                prompt: "Would you like to add a usage example?"@,
            },
            Step::EditUsage => PromptView::Edit,
            Step::Done => PromptView::Finished,
        }
    }

    /// `a` replies to the question asked at this point: text to a line, yes
    /// or no to a question, the editor's result to the editor, and to the
    /// choice of commands only positions of commands.
    pub open spec fn accepts(self, a: AnswerView) -> bool {
        match self.step {
            Step::Name | Step::ImageText | Step::ImageUrl | Step::Command => a is Text,
            Step::AskDescription | Step::AskImage | Step::AskUsage => a is Confirmed,
            Step::EditDescription | Step::EditUsage => a is Edited,
            Step::ChooseCommands => a matches AnswerView::Selected(v) && all_commands(v),
            Step::Done => false,
        }
    }

    /// The state after the reply `a`. Each reply changes only the field it
    /// was asked for; a reply that does not fit the question changes nothing.
    pub open spec fn next(self, a: AnswerView) -> SurveyView {
        let r = self.readme;
        match (self.step, a) {
            (Step::Name, AnswerView::Text(s)) => SurveyView {
                readme: ReadmeView { name: s, ..r },
                step: Step::AskDescription,
                ..self
            },
            (Step::AskDescription, AnswerView::Confirmed(yes)) => SurveyView {
                step: if yes {
                    Step::EditDescription
                } else {
                    Step::AskImage
                },
                ..self
            },
            (Step::EditDescription, AnswerView::Edited(o)) => SurveyView {
                readme: ReadmeView { description: edited(r.description, o), ..r },
                step: Step::AskImage,
                ..self
            },
            (Step::AskImage, AnswerView::Confirmed(yes)) => SurveyView {
                step: if yes {
                    Step::ImageText
                } else {
                    Step::ChooseCommands
                },
                ..self
            },
            (Step::ImageText, AnswerView::Text(s)) => SurveyView {
                readme: ReadmeView { image: LinkView { text: s, ..r.image }, ..r },
                step: Step::ImageUrl,
                ..self
            },
            (Step::ImageUrl, AnswerView::Text(s)) => SurveyView {
                readme: ReadmeView { image: LinkView { url: s, ..r.image }, ..r },
                step: Step::ChooseCommands,
                ..self
            },
            (Step::ChooseCommands, AnswerView::Selected(v)) => SurveyView {
                step: step_at(v, 0),
                selected: v,
                pos: 0,
                ..self
            },
            (Step::Command, AnswerView::Text(s)) => SurveyView {
                readme: ReadmeView {
                    commands: r.commands.with(self.selected[self.pos as int] as int, s),
                    ..r
                },
                step: step_at(self.selected, self.pos + 1),
                pos: self.pos + 1,
                ..self
            },
            (Step::AskUsage, AnswerView::Confirmed(yes)) => SurveyView {
                step: if yes {
                    Step::EditUsage
                } else {
                    Step::Done
                },
                ..self
            },
            (Step::EditUsage, AnswerView::Edited(o)) => SurveyView {
                readme: ReadmeView { usage: edited(r.usage, o), ..r },
                step: Step::Done,
                ..self
            },
            _ => self,
        }
    }
}

/// Every reply that fits moves the interview on: to a later step, or to the
/// next of the chosen commands. The questions thus come in their fixed
/// order, and the interview ends.
pub proof fn answer_moves_forward(s: SurveyView, a: AnswerView)
    requires
        s.wf(),
        s.accepts(a),
    ensures
        s.next(a).wf(),
        s.step.rank() < s.next(a).step.rank() || (s.step is Command && s.next(a).step is Command
            && s.next(a).pos == s.pos + 1),
{
}

/// The label of the command at position `k`.
fn label_of(k: usize) -> (r: String)
    requires
        k < COMMAND_COUNT,
    ensures
        r@ == command_label(k as int),
{
    match k {
        0 => "Command to install the dependencies".to_owned(),
        1 => "Command to build the project".to_owned(),
        2 => "Command to run the units tests".to_owned(),
        _ => "Command to install the project".to_owned(),
    }
}

/// The labels of the four commands, in order.
fn labels() -> (r: Vec<String>)
    ensures
        r@.map_values(|s: String| s@) == command_labels(),
{
    let mut r: Vec<String> = Vec::new();
    let mut k: usize = 0;
    while k < COMMAND_COUNT
        invariant
            k <= COMMAND_COUNT,
            r@.len() == k,
            forall|i: int| 0 <= i < k ==> #[trigger] r@[i]@ == command_label(i),
        decreases COMMAND_COUNT - k,
    {
        r.push(label_of(k));
        k = k + 1;
    }
    assert(r@.map_values(|s: String| s@) =~= command_labels());
    r
}

/// Every position in `v` is that of a command.
fn all_known(v: &Vec<usize>) -> (r: bool)
    ensures
        r == all_commands(v@),
{
    let mut i: usize = 0;
    while i < v.len()
        invariant
            i <= v@.len(),
            forall|j: int| 0 <= j < i ==> v@[j] < COMMAND_COUNT,
        decreases v@.len() - i,
    {
        if v[i] >= COMMAND_COUNT {
            return false;
        }
        i = i + 1;
    }
    true
}

/// An interview in progress, and the document it fills.
pub struct Survey {
    pub readme: Readme,
    pub step: Step,
    /// The positions of the commands chosen to be asked for.
    pub selected: Vec<usize>,
    /// How many of the chosen commands were asked for already.
    pub pos: usize,
}

impl View for Survey {
    type V = SurveyView;

    open spec fn view(&self) -> SurveyView {
        SurveyView {
            readme: self.readme@,
            step: self.step,
            selected: self.selected@,
            pos: self.pos as nat,
        }
    }
}

impl Survey {
    /// An interview that starts with `readme`'s fields as the defaults.
    pub fn new(readme: Readme) -> (r: Survey)
        ensures
            r@ == (SurveyView { readme: readme@, step: Step::Name, selected: Seq::empty(), pos: 0 }),
            r@.wf(),
    {
        Survey { readme, step: Step::Name, selected: Vec::new(), pos: 0 }
    }

    /// The interview is over.
    pub fn is_done(&self) -> (r: bool)
        ensures
            r == (self.step == Step::Done),
    {
        self.step == Step::Done
    }

    /// The question to put to the user now.
    pub fn prompt(&self) -> (r: Prompt)
        requires
            self@.wf(),
        ensures
            r@ == self@.prompt(),
    {
        match self.step {
            Step::Name => Prompt::Input {
                prompt: "Project's name".to_owned(),
                default: self.readme.name.clone(),
            },
            Step::AskDescription => Prompt::Confirm {
                prompt: "Would you like to add a description?".to_owned(),
            },
            Step::EditDescription => Prompt::Edit,
            Step::AskImage => Prompt::Confirm { prompt: "Would you like to add an image?".to_owned() },
            Step::ImageText => Prompt::Input {
                prompt: "Image's alt text".to_owned(),
                default: self.readme.image.text.clone(),
            },
            Step::ImageUrl => Prompt::Input {
                prompt: "Image's URL".to_owned(),
                default: self.readme.image.url.clone(),
            },
            Step::ChooseCommands => Prompt::Select {
                prompt: "Choose the commands you want to add".to_owned(),
                items: labels(),
            },
            Step::Command => {
                let k = self.selected[self.pos];
                Prompt::Input { prompt: label_of(k), default: self.readme.commands.get(k).clone() }
            },
            Step::AskUsage => Prompt::Confirm {
                prompt: "Would you like to add a usage example?".to_owned(),
            },
            Step::EditUsage => Prompt::Edit,
            Step::Done => Prompt::Finished,
        }
    }

    /// `a` replies to the question asked now (see [`SurveyView::accepts`]).
    pub fn accepts(&self, a: &Answer) -> (r: bool)
        ensures
            r == self@.accepts(a@),
    {
        match a {
            Answer::Text(_) => match self.step {
                Step::Name | Step::ImageText | Step::ImageUrl | Step::Command => true,
                _ => false,
            },
            Answer::Confirmed(_) => match self.step {
                Step::AskDescription | Step::AskImage | Step::AskUsage => true,
                _ => false,
            },
            Answer::Edited(_) => match self.step {
                Step::EditDescription | Step::EditUsage => true,
                _ => false,
            },
            Answer::Selected(v) => match self.step {
                Step::ChooseCommands => all_known(v),
                _ => false,
            },
        }
    }

    /// Take the reply `a` to the question asked now: it fills the field that
    /// was asked for and moves the interview on.
    pub fn answer(&mut self, a: Answer)
        requires
            old(self)@.wf(),
            old(self)@.accepts(a@),
        ensures
            final(self)@ == old(self)@.next(a@),
            final(self)@.wf(),
    {
        match a {
            Answer::Text(s) => match self.step {
                Step::Name => {
                    self.readme.name = s;
                    self.step = Step::AskDescription;
                },
                Step::ImageText => {
                    self.readme.image.text = s;
                    self.step = Step::ImageUrl;
                },
                Step::ImageUrl => {
                    self.readme.image.url = s;
                    self.step = Step::ChooseCommands;
                },
                Step::Command => {
                    let n = self.selected.len();
                    let k = self.selected[self.pos];
                    self.readme.commands.set(k, s);
                    self.pos = self.pos + 1;
                    self.step = if self.pos < n {
                        Step::Command
                    } else {
                        Step::AskUsage
                    };
                },
                _ => {},
            },
            Answer::Confirmed(yes) => {
                self.step = match self.step {
                    Step::AskDescription => if yes {
                        Step::EditDescription
                    } else {
                        Step::AskImage
                    },
                    Step::AskImage => if yes {
                        Step::ImageText
                    } else {
                        Step::ChooseCommands
                    },
                    _ => if yes {
                        Step::EditUsage
                    } else {
                        Step::Done
                    },
                };
            },
            Answer::Edited(o) => {
                if self.step == Step::EditDescription {
                    if let Some(t) = o {
                        self.readme.description = t;
                    }
                    self.step = Step::AskImage;
                } else {
                    if let Some(t) = o {
                        self.readme.usage = t;
                    }
                    self.step = Step::Done;
                }
            },
            Answer::Selected(v) => {
                self.step = if v.len() > 0 {
                    Step::Command
                } else {
                    Step::AskUsage
                };
                self.selected = v;
                self.pos = 0;
            },
        }
    }

    /// The document as the interview has filled it.
    pub fn into_readme(self) -> (r: Readme)
        ensures
            r@ == self@.readme,
    {
        self.readme
    }
}

} // verus!
