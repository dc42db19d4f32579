use vstd::prelude::*;
use vstd::string::StringExecFns;
use crate::openai::{OpenAiChoices, OpenAiCompletionRes, OpenAiSpeechToTextRes};

verus! {

/// The styles in which a container of the conversation is drawn.
#[derive(Debug, Clone, Copy, PartialEq, Eq)]
pub enum ChatContainer {
    ContentStyle,
}

impl Default for ChatContainer {
    fn default() -> (style: ChatContainer)
        ensures
            style == ChatContainer::ContentStyle,
    {
        ChatContainer::ContentStyle
    }
}

/// One line of the conversation: who speaks, and what is said.
#[derive(Clone, Debug)]
pub struct Item {
    pub name: String,
    pub text: String,
}

/// A line of the conversation as two texts.
pub struct Line {
    pub name: Seq<char>,
    pub text: Seq<char>,
}

impl View for Item {
    type V = Line;

    open spec fn view(&self) -> Line {
        Line { name: self.name@, text: self.text@ }
    }
}

/// What the user did.
#[derive(Debug, Clone)]
pub enum Message {
    AudioStartRecord,
    AudioStopRecord,
    AudioSpeechToText,
    ApiKeyInputChanged(String),
    ApiKeyInputSubmit(String),
    TextInputChanged(String),
    TextInputSubmit(String),
}

/// What is to be done outside after a message was taken.
#[derive(Debug, Clone)]
pub enum Action {
    Nothing,
    BeginRecord,
    StopRecord,
    /// Send the recording to be transcribed.
    Transcribe,
    /// Send this question to be completed.
    Complete(String),
}

/// The conversation and the two input fields.
pub struct App {
    pub api_key: String,
    pub items: Vec<Item>,
    pub input: String,
}

/// The lines of a list of items.
pub open spec fn lines_of(items: Seq<Item>) -> Seq<Line> {
    items.map_values(|item: Item| item@)
}

/// The line that reports an error of the service.
pub open spec fn error_line(message: Seq<char>) -> Line {
    Line { name: "ChatGPT (Error):"@, text: message }
}

/// The line that shows one completion.
pub open spec fn answer_line(choice: OpenAiChoices) -> Line {
    Line { name: "ChatGPT:"@, text: choice.text.unwrap()@ }
}

/// Whether an answer to a completion request can be shown: an error has a
/// message; without an error there are choices, each with a text.
pub open spec fn completion_shown(res: OpenAiCompletionRes) -> bool {
    match res.error {
        Some(error) => error.message.is_some(),
        None => res.choices.is_some() && forall|i: int|
            0 <= i < res.choices.unwrap()@.len() ==> (
            #[trigger] res.choices.unwrap()@[i]).text.is_some(),
    }
}

/// The lines that an answer to a completion request adds: the error alone
/// where there is one, else one line for each choice, in their order.
pub open spec fn completion_lines(res: OpenAiCompletionRes) -> Seq<Line> {
    match res.error {
        Some(error) => seq![error_line(error.message.unwrap()@)],
        None => res.choices.unwrap()@.map_values(|choice: OpenAiChoices| answer_line(choice)),
    }
}

/// Whether an answer to a transcription request can be shown: an error has
/// a message; without an error there is a text.
pub open spec fn transcription_shown(res: OpenAiSpeechToTextRes) -> bool {
    match res.error {
        Some(error) => error.message.is_some(),
        None => res.text.is_some(),
    }
}

/// The line that an answer to a transcription request adds.
pub open spec fn transcription_line(res: OpenAiSpeechToTextRes) -> Line {
    match res.error {
        Some(error) => error_line(error.message.unwrap()@),
        None => Line { name: "You (by voice):"@, text: res.text.unwrap()@ },
    }
}

/// Whether an answer to a completion request can be shown.
pub fn can_show_completion(res: &OpenAiCompletionRes) -> (can: bool)
    ensures
        can == completion_shown(*res),
{
    match &res.error {
        Some(error) => error.message.is_some(),
        None => match &res.choices {
            Some(choices) => {
                let mut i: usize = 0;
                while i < choices.len()
                    invariant
                        i <= choices.len(),
                        res.error.is_none(),
                        res.choices == Some(*choices),
                        forall|j: int| 0 <= j < i ==> (#[trigger] choices@[j]).text.is_some(),
                    decreases choices.len() - i,
                {
                    if choices[i].text.is_none() {
                        assert(choices@[i as int].text.is_none());
                        return false;
                    }
                    i += 1;
                }
                true
            },
            None => false,
        },
    }
}

/// Whether an answer to a transcription request can be shown.
pub fn can_show_transcription(res: &OpenAiSpeechToTextRes) -> (can: bool)
    ensures
        can == transcription_shown(*res),
{
    match &res.error {
        Some(error) => error.message.is_some(),
        None => res.text.is_some(),
    }
}

impl App {
    pub open spec fn lines(&self) -> Seq<Line> {
        lines_of(self.items@)
    }

    /// An empty conversation with empty input fields.
    pub fn new() -> (app: App)
        ensures
            app.api_key@.len() == 0,
            app.input@.len() == 0,
            app.items@.len() == 0,
    {
        App { api_key: String::new(), items: Vec::new(), input: String::new() }
    }

    pub fn title(&self) -> (title: String)
        ensures
            title@ == "OpenAI ChatGPT by Voice"@,
    {
        String::from_str("OpenAI ChatGPT by Voice")
    }

    fn push_line(&mut self, name: &str, text: String)
        ensures
            final(self).api_key == old(self).api_key,
            final(self).input == old(self).input,
            final(self).lines() == old(self).lines().push(Line { name: name@, text: text@ }),
    {
        self.items.push(Item { name: String::from_str(name), text });
        assert(lines_of(self.items@) =~= lines_of(old(self).items@).push(
            Line { name: name@, text: text@ },
        ));
    }

    /// Takes one message: changes the fields as the message says and tells
    /// what is to be done outside.
    pub fn update(&mut self, message: Message) -> (action: Action)
        ensures
            match message {
                Message::AudioStartRecord => action == Action::BeginRecord && *final(self) == *old(
                    self,
                ),
                Message::AudioStopRecord => action == Action::StopRecord && *final(self) == *old(
                    self,
                ),
                Message::AudioSpeechToText => action == Action::Transcribe && *final(self) == *old(
                    self,
                ),
                Message::ApiKeyInputChanged(key) | Message::ApiKeyInputSubmit(key) => {
                    &&& action == Action::Nothing
                    &&& final(self).api_key == key
                    &&& final(self).input == old(self).input
                    &&& final(self).items == old(self).items
                },
                Message::TextInputChanged(text) => {
                    &&& action == Action::Nothing
                    &&& final(self).input == text
                    &&& final(self).api_key == old(self).api_key
                    &&& final(self).items == old(self).items
                },
                Message::TextInputSubmit(text) => {
                    &&& action == Action::Complete(text)
                    &&& final(self).input@.len() == 0
                    &&& final(self).api_key == old(self).api_key
                    &&& final(self).lines() == old(self).lines().push(
                        Line { name: "You (by text):"@, text: text@ },
                    )
                },
            },
    {
        match message {
            Message::AudioStartRecord => Action::BeginRecord,
            Message::AudioStopRecord => Action::StopRecord,
            Message::AudioSpeechToText => Action::Transcribe,
            Message::ApiKeyInputChanged(key) => {
                self.api_key = key;
                Action::Nothing
            },
            Message::ApiKeyInputSubmit(key) => {
                self.api_key = key;
                Action::Nothing
            },
            Message::TextInputChanged(text) => {
                self.input = text;
                Action::Nothing
            },
            Message::TextInputSubmit(text) => {
                self.push_line("You (by text):", text.clone());
                self.input = String::new();
                Action::Complete(text)
            },
        }
    }

    /// Shows the answer to a transcription request, and gives the question
    /// to complete where the answer holds one.
    pub fn handle_transcription(&mut self, res: &OpenAiSpeechToTextRes) -> (question: Option<
        String,
    >)
        requires
            transcription_shown(*res),
        ensures
            final(self).api_key == old(self).api_key,
            final(self).input == old(self).input,
            final(self).lines() == old(self).lines().push(transcription_line(*res)),
            match res.error {
                Some(_) => question.is_none(),
                None => question == res.text,
            },
    {
        match &res.error {
            Some(error) => {
                match &error.message {
                    Some(message) => {
                        self.push_line("ChatGPT (Error):", message.clone());
                    },
                    None => {},
                }
                None
            },
            None => match &res.text {
                Some(text) => {
                    self.push_line("You (by voice):", text.clone());
                    Some(text.clone())
                },
                None => None,
            },
        }
    }

    /// Shows the answer to a completion request.
    pub fn handle_completion(&mut self, res: &OpenAiCompletionRes)
        requires
            completion_shown(*res),
        ensures
            final(self).api_key == old(self).api_key,
            final(self).input == old(self).input,
            final(self).lines() == old(self).lines() + completion_lines(*res),
    {
        match &res.error {
            Some(error) => {
                match &error.message {
                    Some(message) => {
                        self.push_line("ChatGPT (Error):", message.clone());
                        assert(old(self).lines().push(error_line(message@)) =~= old(self).lines()
                            + completion_lines(*res));
                    },
                    None => {},
                }
            },
            None => match &res.choices {
                Some(choices) => {
                    let ghost answers = completion_lines(*res);
                    let mut i: usize = 0;
                    assert(old(self).lines() + answers.take(0) =~= old(self).lines());
                    while i < choices.len()
                        invariant
                            i <= choices.len(),
                            answers == choices@.map_values(
                                |choice: OpenAiChoices| answer_line(choice),
                            ),
                            forall|j: int|
                                0 <= j < choices@.len() ==> (#[trigger] choices@[j]).text.is_some(),
                            self.api_key == old(self).api_key,
                            self.input == old(self).input,
                            self.lines() == old(self).lines() + answers.take(i as int),
                        decreases choices.len() - i,
                    {
                        match &choices[i].text {
                            Some(text) => {
                                let ghost before = self.lines();
                                self.push_line("ChatGPT:", text.clone());
                                assert(answers[i as int] == answer_line(choices@[i as int]));
                                assert(before.push(answers[i as int]) =~= old(self).lines()
                                    + answers.take(i + 1));
                            },
                            None => {},
                        }
                        i += 1;
                    }
                    assert(answers.take(choices@.len() as int) =~= answers);
                },
                None => {},
            },
        }
    }
}

} // verus!
