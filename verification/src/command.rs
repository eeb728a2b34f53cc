//! The command builder: what is run for each outcome of the selector.
//!
//! An `Invocation` says which backend program to start and with which
//! arguments. Finding the program on the search path, starting it and
//! printing a dry run are the caller's business.

use vstd::prelude::*;
use vstd::string::*;
use crate::plan::{Outcome, OutcomeView};
use crate::ports::{port_choice, port_or_default};
use crate::text::{decimal, decimal_string, join, joined};
use crate::token::{cloud_tag, model_ref, tagged};

verus! {

/// The programs of the two backend families.
#[derive(Clone, Copy, Debug, PartialEq, Eq, Structural)]
pub enum Program {
    /// The local server.
    LlamaServer,
    /// The local command-line engine.
    LlamaCli,
    /// The registry daemon's client.
    Ollama,
}

/// A program to start.
#[derive(Clone, Debug, PartialEq, Eq)]
pub struct Invocation {
    /// The program.
    pub program: Program,
    /// Its arguments, in order.
    pub args: Vec<String>,
    /// Whether the program's error stream is discarded.
    pub quiet: bool,
    /// Whether the caller waits for the program to end: it does for the
    /// interactive programs, and leaves a server running.
    pub waits: bool,
}

/// `Invocation` with its arguments as plain text.
pub struct InvocationView {
    pub program: Program,
    pub args: Seq<Seq<char>>,
    pub quiet: bool,
    pub waits: bool,
}

impl View for Invocation {
    type V = InvocationView;

    open spec fn view(&self) -> InvocationView {
        InvocationView {
            program: self.program,
            args: self.args.deep_view(),
            quiet: self.quiet,
            waits: self.waits,
        }
    }
}

/// The name under which a program is looked up on the search path.
pub open spec fn program_name_of(program: Program) -> Seq<char> {
    match program {
        Program::LlamaServer => "llama-server"@,
        Program::LlamaCli => "llama-cli"@,
        Program::Ollama => "ollama"@,
    }
}

/// The complaint where a program is not on the search path.
pub open spec fn missing_backend(program: Program) -> Seq<char> {
    program_name_of(program) + " not found on PATH"@
}

/// The local server on a weight file: the model flag, the port flag, then the
/// caller's own arguments.
pub open spec fn server_model(path: Seq<char>, port: Option<u16>, extra: Seq<Seq<char>>) -> InvocationView {
    InvocationView {
        program: Program::LlamaServer,
        args: seq!["-m"@, path, "--port"@, decimal(port_choice(false, port) as nat)] + extra,
        quiet: false,
        waits: false,
    }
}

/// The local server on a repository of the model hub.
pub open spec fn server_repo(repo: Seq<char>, port: Option<u16>, extra: Seq<Seq<char>>) -> InvocationView {
    InvocationView {
        program: Program::LlamaServer,
        args: seq!["-hf"@, repo, "--port"@, decimal(port_choice(false, port) as nat)] + extra,
        quiet: false,
        waits: false,
    }
}

/// The command-line engine on a weight file: the model flag, then the
/// caller's own arguments.
pub open spec fn cli_model(path: Seq<char>, extra: Seq<Seq<char>>) -> InvocationView {
    InvocationView {
        program: Program::LlamaCli,
        args: seq!["-m"@, path] + extra,
        quiet: false,
        waits: true,
    }
}

/// The command-line engine answering one prompt, its chatter discarded.
pub open spec fn cli_prompt(path: Seq<char>, prompt: Seq<char>) -> InvocationView {
    InvocationView {
        program: Program::LlamaCli,
        args: seq!["-m"@, path, "-p"@, prompt, "-no-cnv"@],
        quiet: true,
        waits: true,
    }
}

/// The remote backend running a model: the verb, `name:tag`, then the
/// caller's own arguments.
pub open spec fn remote_run(name: Seq<char>, tag: Seq<char>, extra: Seq<Seq<char>>) -> InvocationView {
    InvocationView {
        program: Program::Ollama,
        args: seq!["run"@, tagged(name, tag)] + extra,
        quiet: false,
        waits: true,
    }
}

/// The remote backend answering one prompt: the verb, `name:tag`, then the
/// prompt as the last argument.
pub open spec fn remote_prompt(name: Seq<char>, tag: Seq<char>, prompt: Seq<char>) -> InvocationView {
    InvocationView {
        program: Program::Ollama,
        args: seq!["run"@, tagged(name, tag), prompt],
        quiet: false,
        waits: true,
    }
}

/// The remote backend listing its models.
pub open spec fn remote_list() -> InvocationView {
    InvocationView { program: Program::Ollama, args: seq!["list"@], quiet: false, waits: true }
}

/// The probe that asks the remote backend for the cloud variant of a model.
/// Only whether it succeeds is of interest.
pub open spec fn cloud_probe(name: Seq<char>) -> InvocationView {
    InvocationView {
        program: Program::Ollama,
        args: seq!["show"@, tagged(name, cloud_tag())],
        quiet: false,
        waits: true,
    }
}

/// What is run for an outcome of the selector; nothing for a failure.
pub open spec fn invocation_of(outcome: OutcomeView, extra: Seq<Seq<char>>) -> Option<InvocationView> {
    match outcome {
        OutcomeView::ServeFile { path, port, link_as } => Some(server_model(path, Some(port), extra)),
        OutcomeView::ServeRepo { repo, port } => Some(server_repo(repo, Some(port), extra)),
        OutcomeView::ChatFile { path } => Some(cli_model(path, extra)),
        OutcomeView::PromptFile { path, prompt } => Some(cli_prompt(path, prompt)),
        OutcomeView::RunRemote { name, tag } => Some(remote_run(name, tag, extra)),
        OutcomeView::PromptRemote { name, tag, prompt } => Some(remote_prompt(name, tag, prompt)),
        OutcomeView::Fail { code, message } => None,
    }
}

/// The line that a dry run prints in place of starting a program.
pub open spec fn dry_run_line_of(program_path: Seq<char>, args: Seq<Seq<char>>) -> Seq<char> {
    program_path + seq![' '] + joined(args, seq![' '])
}

/// The remote backend offers a model's cloud variant: the backend's program
/// was found, the probe ran, and it succeeded.
pub open spec fn cloud_available(backend_found: bool, probe_succeeded: Option<bool>) -> bool {
    backend_found && probe_succeeded == Some(true)
}

/// Adds one argument.
fn push_text(args: &mut Vec<String>, s: &str)
    ensures
        final(args).deep_view() == old(args).deep_view().push(s@),
{
    let ghost before = args.deep_view();
    args.push(String::from_str(s));
    assert(args.deep_view() =~= before.push(s@));
}

/// Adds the caller's own arguments.
fn push_all(args: &mut Vec<String>, extra: &Vec<String>)
    ensures
        final(args).deep_view() == old(args).deep_view() + extra.deep_view(),
{
    let ghost before = args.deep_view();
    let n: usize = extra.len();
    let mut i: usize = 0;
    assert(args.deep_view() =~= before + extra.deep_view().take(0));
    while i < n
        invariant
            i <= n,
            n == extra.len(),
            args.deep_view() == before + extra.deep_view().take(i as int),
        decreases n - i,
    {
        let ghost so_far = args.deep_view();
        args.push(extra[i].clone());
        assert(args.deep_view() =~= so_far.push(extra[i as int]@));
        assert(extra.deep_view().take(i as int + 1) =~= extra.deep_view().take(i as int).push(
            extra[i as int]@,
        ));
        i += 1;
    }
    assert(extra.deep_view().take(n as int) =~= extra.deep_view());
}

/// The name under which a program is looked up on the search path.
pub fn program_name(program: Program) -> (name: String)
    ensures
        name@ == program_name_of(program),
{
    match program {
        Program::LlamaServer => String::from_str("llama-server"),
        Program::LlamaCli => String::from_str("llama-cli"),
        Program::Ollama => String::from_str("ollama"),
    }
}

/// The complaint where a program is not on the search path.
pub fn missing_backend_message(program: Program) -> (message: String)
    ensures
        message@ == missing_backend(program),
{
    let mut message: String = program_name(program);
    message.append(" not found on PATH");
    message
}

/// The local server on a weight file.
pub fn run_llama_server_model(model_path: &str, port: Option<u16>, extra: &Vec<String>) -> (cmd:
    Invocation)
    ensures
        cmd@ == server_model(model_path@, port, extra.deep_view()),
{
    let mut args: Vec<String> = Vec::new();
    assert(args.deep_view() =~= Seq::<Seq<char>>::empty());
    push_text(&mut args, "-m");
    push_text(&mut args, model_path);
    push_text(&mut args, "--port");
    let p: String = decimal_string(port_or_default(false, port));
    push_text(&mut args, p.as_str());
    assert(args.deep_view() =~= seq![
        "-m"@,
        model_path@,
        "--port"@,
        decimal(port_choice(false, port) as nat),
    ]);
    push_all(&mut args, extra);
    Invocation { program: Program::LlamaServer, args, quiet: false, waits: false }
}

/// The local server on a repository of the model hub.
pub fn run_llama_server_hf(repo: &str, port: Option<u16>, extra: &Vec<String>) -> (cmd: Invocation)
    ensures
        cmd@ == server_repo(repo@, port, extra.deep_view()),
{
    let mut args: Vec<String> = Vec::new();
    assert(args.deep_view() =~= Seq::<Seq<char>>::empty());
    push_text(&mut args, "-hf");
    push_text(&mut args, repo);
    push_text(&mut args, "--port");
    let p: String = decimal_string(port_or_default(false, port));
    push_text(&mut args, p.as_str());
    assert(args.deep_view() =~= seq![
        "-hf"@,
        repo@,
        "--port"@,
        decimal(port_choice(false, port) as nat),
    ]);
    push_all(&mut args, extra);
    Invocation { program: Program::LlamaServer, args, quiet: false, waits: false }
}

/// The command-line engine on a weight file.
pub fn run_llama_cli_model(model_path: &str, extra: &Vec<String>) -> (cmd: Invocation)
    ensures
        cmd@ == cli_model(model_path@, extra.deep_view()),
{
    let mut args: Vec<String> = Vec::new();
    assert(args.deep_view() =~= Seq::<Seq<char>>::empty());
    push_text(&mut args, "-m");
    push_text(&mut args, model_path);
    assert(args.deep_view() =~= seq!["-m"@, model_path@]);
    push_all(&mut args, extra);
    Invocation { program: Program::LlamaCli, args, quiet: false, waits: true }
}

/// The command-line engine answering one prompt.
pub fn run_llama_cli_prompt(model_path: &str, prompt: &str) -> (cmd: Invocation)
    ensures
        cmd@ == cli_prompt(model_path@, prompt@),
{
    let mut args: Vec<String> = Vec::new();
    assert(args.deep_view() =~= Seq::<Seq<char>>::empty());
    push_text(&mut args, "-m");
    push_text(&mut args, model_path);
    push_text(&mut args, "-p");
    push_text(&mut args, prompt);
    push_text(&mut args, "-no-cnv");
    assert(args.deep_view() =~= seq!["-m"@, model_path@, "-p"@, prompt@, "-no-cnv"@]);
    Invocation { program: Program::LlamaCli, args, quiet: true, waits: true }
}

/// The remote backend running a model.
pub fn run_ollama_run(model: &str, tag: &str, extra: &Vec<String>) -> (cmd: Invocation)
    ensures
        cmd@ == remote_run(model@, tag@, extra.deep_view()),
{
    let mut args: Vec<String> = Vec::new();
    assert(args.deep_view() =~= Seq::<Seq<char>>::empty());
    push_text(&mut args, "run");
    let target: String = model_ref(model, tag);
    push_text(&mut args, target.as_str());
    assert(args.deep_view() =~= seq!["run"@, tagged(model@, tag@)]);
    push_all(&mut args, extra);
    Invocation { program: Program::Ollama, args, quiet: false, waits: true }
}

/// The remote backend answering one prompt.
pub fn run_ollama_simple(model: &str, tag: &str, prompt: &str) -> (cmd: Invocation)
    ensures
        cmd@ == remote_prompt(model@, tag@, prompt@),
{
    let mut args: Vec<String> = Vec::new();
    assert(args.deep_view() =~= Seq::<Seq<char>>::empty());
    push_text(&mut args, "run");
    let target: String = model_ref(model, tag);
    push_text(&mut args, target.as_str());
    push_text(&mut args, prompt);
    assert(args.deep_view() =~= seq!["run"@, tagged(model@, tag@), prompt@]);
    Invocation { program: Program::Ollama, args, quiet: false, waits: true }
}

/// The remote backend listing its models.
pub fn run_ollama_list() -> (cmd: Invocation)
    ensures
        cmd@ == remote_list(),
{
    let mut args: Vec<String> = Vec::new();
    assert(args.deep_view() =~= Seq::<Seq<char>>::empty());
    push_text(&mut args, "list");
    assert(args.deep_view() =~= seq!["list"@]);
    Invocation { program: Program::Ollama, args, quiet: false, waits: true }
}

/// The probe that asks the remote backend for the cloud variant of a model.
pub fn cloud_probe_command(model: &str) -> (cmd: Invocation)
    ensures
        cmd@ == cloud_probe(model@),
{
    let mut args: Vec<String> = Vec::new();
    assert(args.deep_view() =~= Seq::<Seq<char>>::empty());
    push_text(&mut args, "show");
    let target: String = model_ref(model, "cloud");
    push_text(&mut args, target.as_str());
    assert(args.deep_view() =~= seq!["show"@, tagged(model@, cloud_tag())]);
    Invocation { program: Program::Ollama, args, quiet: false, waits: true }
}

/// Whether the remote backend offers a model's cloud variant, given whether
/// the backend's program was found and, if the probe ran, whether it succeeded.
pub fn is_cloud_model_available(backend_found: bool, probe_succeeded: Option<bool>) -> (available:
    bool)
    ensures
        available == cloud_available(backend_found, probe_succeeded),
{
    match probe_succeeded {
        Some(ok) => backend_found && ok,
        None => false,
    }
}

/// What is run for an outcome of the selector.
pub fn invocation_for(outcome: &Outcome, extra: &Vec<String>) -> (cmd: Option<Invocation>)
    ensures
        match cmd {
            Some(c) => invocation_of(outcome@, extra.deep_view()) == Some(c@),
            None => invocation_of(outcome@, extra.deep_view()) is None,
        },
{
    match outcome {
        Outcome::ServeFile { path, port, link_as } => Some(
            run_llama_server_model(path.as_str(), Some(*port), extra),
        ),
        Outcome::ServeRepo { repo, port } => Some(
            run_llama_server_hf(repo.as_str(), Some(*port), extra),
        ),
        Outcome::ChatFile { path } => Some(run_llama_cli_model(path.as_str(), extra)),
        Outcome::PromptFile { path, prompt } => Some(
            run_llama_cli_prompt(path.as_str(), prompt.as_str()),
        ),
        Outcome::RunRemote { name, tag } => Some(run_ollama_run(name.as_str(), tag.as_str(), extra)),
        Outcome::PromptRemote { name, tag, prompt } => Some(
            run_ollama_simple(name.as_str(), tag.as_str(), prompt.as_str()),
        ),
        Outcome::Fail { code, message } => None,
    }
}

/// The line that a dry run prints in place of starting a program.
pub fn dry_run_line(program_path: &str, args: &Vec<String>) -> (line: String)
    ensures
        line@ == dry_run_line_of(program_path@, args.deep_view()),
{
    proof {
        reveal_strlit(" ");
    }
    assert(" "@ =~= seq![' ']);
    let mut line: String = String::from_str(program_path);
    line.append(" ");
    let rest: String = join(args, " ");
    line.append(rest.as_str());
    line
}

} // verus!
