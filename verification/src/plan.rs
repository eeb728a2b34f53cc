//! What the selector knows, what it asks for and what it settles on.

use vstd::prelude::*;

verus! {

/// One of the two mutually exclusive execution ecosystems.
#[derive(Clone, Copy, Debug, PartialEq, Eq, Structural)]
pub enum Family {
    /// The registry daemon and its remote models.
    Registry,
    /// The local server and command-line engine.
    Engine,
}

/// The answer to a question about a file on disk.
#[derive(Clone, Debug, PartialEq, Eq)]
pub enum Lookup {
    /// Not asked yet.
    Unknown,
    /// Asked; there is no such file.
    Missing,
    /// Asked; the file is at this path.
    Found(String),
}

/// `Lookup` with its path as plain text.
pub enum LookupView {
    Unknown,
    Missing,
    Found(Seq<char>),
}

impl View for Lookup {
    type V = LookupView;

    open spec fn view(&self) -> LookupView {
        match self {
            Lookup::Unknown => LookupView::Unknown,
            Lookup::Missing => LookupView::Missing,
            Lookup::Found(p) => LookupView::Found(p@),
        }
    }
}

impl Lookup {
    /// The answer that a finished search gives: the file it found, or that
    /// there is none.
    pub fn answered(found: Option<String>) -> (answer: Lookup)
        ensures
            answer@ == (match found {
                Some(p) => LookupView::Found(p@),
                None => LookupView::Missing,
            }),
    {
        match found {
            Some(p) => Lookup::Found(p),
            None => Lookup::Missing,
        }
    }
}

/// What has been learned from the outside world so far.
#[derive(Clone, Debug, PartialEq, Eq)]
pub struct Facts {
    /// The weight file that the registry's manifest of the model names.
    pub manifest: Lookup,
    /// The entry of the link directory that the model token names.
    pub link: Lookup,
    /// Whether the remote backend offers the model's cloud variant.
    pub cloud: Option<bool>,
}

/// `Facts` with its paths as plain text.
pub struct FactsView {
    pub manifest: LookupView,
    pub link: LookupView,
    pub cloud: Option<bool>,
}

impl View for Facts {
    type V = FactsView;

    open spec fn view(&self) -> FactsView {
        FactsView { manifest: self.manifest@, link: self.link@, cloud: self.cloud }
    }
}

impl Facts {
    /// Nothing is known yet.
    pub fn unknown() -> (f: Facts)
        ensures
            f@ == (FactsView { manifest: LookupView::Unknown, link: LookupView::Unknown, cloud: None }),
    {
        Facts { manifest: Lookup::Unknown, link: Lookup::Unknown, cloud: None }
    }
}

/// What the caller asked the tool to do with a model.
#[derive(Clone, Debug, PartialEq, Eq)]
pub enum Action {
    /// Serve a repository of the model hub with the local server.
    ServeRepo { repo: String },
    /// Serve the weights that the registry holds for `model` (`name` or `name:tag`).
    ServeRegistry { model: String },
    /// Serve the registry's weights where `target` carries a tag, else a linked file.
    ServeEither { target: String },
    /// Serve a linked file, or the path as given, with the local server.
    ServeLinked { model: String },
    /// Open the command-line engine on a linked file, or on the path as given.
    Chat { model: String },
    /// Run a model wherever it can be found: locally first, remotely otherwise.
    Run { target: String, tag: Option<String> },
    /// Answer one prompt and exit.
    Prompt { model: String, prompt: String },
}

/// `Action` with its texts as plain text.
pub enum ActionView {
    ServeRepo { repo: Seq<char> },
    ServeRegistry { model: Seq<char> },
    ServeEither { target: Seq<char> },
    ServeLinked { model: Seq<char> },
    Chat { model: Seq<char> },
    Run { target: Seq<char>, tag: Option<Seq<char>> },
    Prompt { model: Seq<char>, prompt: Seq<char> },
}

impl View for Action {
    type V = ActionView;

    open spec fn view(&self) -> ActionView {
        match self {
            Action::ServeRepo { repo } => ActionView::ServeRepo { repo: repo@ },
            Action::ServeRegistry { model } => ActionView::ServeRegistry { model: model@ },
            Action::ServeEither { target } => ActionView::ServeEither { target: target@ },
            Action::ServeLinked { model } => ActionView::ServeLinked { model: model@ },
            Action::Chat { model } => ActionView::Chat { model: model@ },
            Action::Run { target, tag } => ActionView::Run {
                target: target@,
                tag: match tag {
                    Some(t) => Some(t@),
                    None => None,
                },
            },
            Action::Prompt { model, prompt } => ActionView::Prompt {
                model: model@,
                prompt: prompt@,
            },
        }
    }
}

/// The switches that come with every request.
#[derive(Clone, Copy, Debug, PartialEq, Eq, Structural)]
pub struct Flags {
    /// The caller chose the registry family.
    pub ollama: bool,
    /// The caller chose the engine family.
    pub llamacpp: bool,
    /// The caller chose a port.
    pub port: Option<u16>,
}

/// Where a request ends.
#[derive(Clone, Debug, PartialEq, Eq)]
pub enum Outcome {
    /// Start the local server on a weight file, after linking the file under
    /// `link_as` where a name is given.
    ServeFile { path: String, port: u16, link_as: Option<String> },
    /// Start the local server on a repository of the model hub.
    ServeRepo { repo: String, port: u16 },
    /// Open the command-line engine on a weight file.
    ChatFile { path: String },
    /// Let the command-line engine answer one prompt from a weight file.
    PromptFile { path: String, prompt: String },
    /// Hand the model to the remote backend.
    RunRemote { name: String, tag: String },
    /// Let the remote backend answer one prompt.
    PromptRemote { name: String, tag: String, prompt: String },
    /// Give up with an exit code and a message for the error stream.
    Fail { code: i32, message: String },
}

/// `Outcome` with its texts as plain text.
pub enum OutcomeView {
    ServeFile { path: Seq<char>, port: u16, link_as: Option<Seq<char>> },
    ServeRepo { repo: Seq<char>, port: u16 },
    ChatFile { path: Seq<char> },
    PromptFile { path: Seq<char>, prompt: Seq<char> },
    RunRemote { name: Seq<char>, tag: Seq<char> },
    PromptRemote { name: Seq<char>, tag: Seq<char>, prompt: Seq<char> },
    Fail { code: i32, message: Seq<char> },
}

impl View for Outcome {
    type V = OutcomeView;

    open spec fn view(&self) -> OutcomeView {
        match self {
            Outcome::ServeFile { path, port, link_as } => OutcomeView::ServeFile {
                path: path@,
                port: *port,
                link_as: match link_as {
                    Some(n) => Some(n@),
                    None => None,
                },
            },
            Outcome::ServeRepo { repo, port } => OutcomeView::ServeRepo { repo: repo@, port: *port },
            Outcome::ChatFile { path } => OutcomeView::ChatFile { path: path@ },
            Outcome::PromptFile { path, prompt } => OutcomeView::PromptFile {
                path: path@,
                prompt: prompt@,
            },
            Outcome::RunRemote { name, tag } => OutcomeView::RunRemote { name: name@, tag: tag@ },
            Outcome::PromptRemote { name, tag, prompt } => OutcomeView::PromptRemote {
                name: name@,
                tag: tag@,
                prompt: prompt@,
            },
            Outcome::Fail { code, message } => OutcomeView::Fail { code: *code, message: message@ },
        }
    }
}

/// What the selector wants next: an answer from the outside world, or nothing more.
#[derive(Clone, Debug, PartialEq, Eq)]
pub enum Step {
    /// Resolve the registry's manifest of `name` at `tag` to a weight file.
    LookupManifest { name: String, tag: String },
    /// Resolve `token` in the link directory.
    LookupLink { token: String },
    /// Ask the remote backend whether it offers the cloud variant of `name`.
    ProbeCloud { name: String },
    /// The decision is made.
    Finish(Outcome),
}

/// `Step` with its texts as plain text.
pub enum StepView {
    LookupManifest { name: Seq<char>, tag: Seq<char> },
    LookupLink { token: Seq<char> },
    ProbeCloud { name: Seq<char> },
    Finish(OutcomeView),
}

impl View for Step {
    type V = StepView;

    open spec fn view(&self) -> StepView {
        match self {
            Step::LookupManifest { name, tag } => StepView::LookupManifest { name: name@, tag: tag@ },
            Step::LookupLink { token } => StepView::LookupLink { token: token@ },
            Step::ProbeCloud { name } => StepView::ProbeCloud { name: name@ },
            Step::Finish(o) => StepView::Finish(o@),
        }
    }
}

/// Exit code of a finished request.
pub const EXIT_OK: i32 = 0;

/// Exit code where the model is neither on disk nor offered remotely.
pub const EXIT_NOT_FOUND: i32 = 1;

/// Exit code where the family switches contradict the verb, or an argument is missing.
pub const EXIT_USAGE: i32 = 2;

/// Exit code where a backend's executable is not on the search path.
pub const EXIT_NO_BACKEND: i32 = 127;

} // verus!
