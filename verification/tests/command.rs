use ggufy::command::{
    cloud_probe_command, dry_run_line, invocation_for, is_cloud_model_available,
    missing_backend_message, program_name, run_llama_cli_model, run_llama_cli_prompt,
    run_llama_server_hf, run_llama_server_model, run_ollama_list, run_ollama_run,
    run_ollama_simple, Invocation, Program,
};
use ggufy::plan::Outcome;

fn strings(items: &[&str]) -> Vec<String> {
    items.iter().map(|s| s.to_string()).collect()
}

fn s(text: &str) -> String {
    text.to_string()
}

#[test]
fn program_names_are_those_on_the_search_path() {
    assert_eq!(program_name(Program::LlamaServer), "llama-server");
    assert_eq!(program_name(Program::LlamaCli), "llama-cli");
    assert_eq!(program_name(Program::Ollama), "ollama");
}

#[test]
fn missing_backend_is_named() {
    assert_eq!(missing_backend_message(Program::LlamaServer), "llama-server not found on PATH");
    assert_eq!(missing_backend_message(Program::LlamaCli), "llama-cli not found on PATH");
    assert_eq!(missing_backend_message(Program::Ollama), "ollama not found on PATH");
}

#[test]
fn server_gets_model_port_and_trailing_arguments() {
    let cmd = run_llama_server_model("/b/w.gguf", Some(8080), &strings(&["--ctx-size", "4096"]));
    assert_eq!(
        cmd,
        Invocation {
            program: Program::LlamaServer,
            args: strings(&["-m", "/b/w.gguf", "--port", "8080", "--ctx-size", "4096"]),
            quiet: false,
            waits: false,
        }
    );
}

#[test]
fn server_falls_back_to_its_default_port() {
    let cmd = run_llama_server_model("/b/w.gguf", None, &Vec::new());
    assert_eq!(cmd.args, strings(&["-m", "/b/w.gguf", "--port", "12434"]));
}

#[test]
fn server_on_hub_repo() {
    let cmd = run_llama_server_hf("owner/repo", Some(12434), &strings(&["--ctx-size", "4096"]));
    assert_eq!(
        cmd,
        Invocation {
            program: Program::LlamaServer,
            args: strings(&["-hf", "owner/repo", "--port", "12434", "--ctx-size", "4096"]),
            quiet: false,
            waits: false,
        }
    );
    assert_eq!(
        run_llama_server_hf("o/r", None, &Vec::new()).args,
        strings(&["-hf", "o/r", "--port", "12434"])
    );
}

#[test]
fn cli_gets_model_and_trailing_arguments() {
    let cmd = run_llama_cli_model("/l/m.gguf", &strings(&["-n", "32"]));
    assert_eq!(
        cmd,
        Invocation {
            program: Program::LlamaCli,
            args: strings(&["-m", "/l/m.gguf", "-n", "32"]),
            quiet: false,
            waits: true,
        }
    );
}

#[test]
fn cli_prompt_is_quiet_and_single_shot() {
    let cmd = run_llama_cli_prompt("/l/m.gguf", "tell me a joke");
    assert_eq!(
        cmd,
        Invocation {
            program: Program::LlamaCli,
            args: strings(&["-m", "/l/m.gguf", "-p", "tell me a joke", "-no-cnv"]),
            quiet: true,
            waits: true,
        }
    );
}

#[test]
fn remote_run_gets_verb_and_tagged_name() {
    let cmd = run_ollama_run("mistral", "cloud", &strings(&["--verbose"]));
    assert_eq!(
        cmd,
        Invocation {
            program: Program::Ollama,
            args: strings(&["run", "mistral:cloud", "--verbose"]),
            quiet: false,
            waits: true,
        }
    );
}

#[test]
fn remote_prompt_ends_with_the_prompt() {
    let cmd = run_ollama_simple("mistral", "7b", "say hi");
    assert_eq!(cmd.program, Program::Ollama);
    assert_eq!(cmd.args, strings(&["run", "mistral:7b", "say hi"]));
}

#[test]
fn remote_list_and_probe() {
    assert_eq!(run_ollama_list().args, strings(&["list"]));
    assert_eq!(run_ollama_list().program, Program::Ollama);
    let probe = cloud_probe_command("mistral");
    assert_eq!(probe.program, Program::Ollama);
    assert_eq!(probe.args, strings(&["show", "mistral:cloud"]));
}

#[test]
fn cloud_is_available_only_on_a_successful_probe() {
    assert!(is_cloud_model_available(true, Some(true)));
    assert!(!is_cloud_model_available(true, Some(false)));
    assert!(!is_cloud_model_available(true, None));
    assert!(!is_cloud_model_available(false, Some(true)));
    assert!(!is_cloud_model_available(false, None));
}

#[test]
fn every_outcome_but_failure_has_its_invocation() {
    let extra = strings(&["-x"]);
    assert_eq!(
        invocation_for(
            &Outcome::ServeFile { path: s("/p"), port: 9, link_as: Some(s("n.gguf")) },
            &extra
        ),
        Some(run_llama_server_model("/p", Some(9), &extra))
    );
    assert_eq!(
        invocation_for(&Outcome::ServeRepo { repo: s("o/r"), port: 9 }, &extra),
        Some(run_llama_server_hf("o/r", Some(9), &extra))
    );
    assert_eq!(
        invocation_for(&Outcome::ChatFile { path: s("/p") }, &extra),
        Some(run_llama_cli_model("/p", &extra))
    );
    assert_eq!(
        invocation_for(&Outcome::PromptFile { path: s("/p"), prompt: s("hi") }, &extra),
        Some(run_llama_cli_prompt("/p", "hi"))
    );
    assert_eq!(
        invocation_for(&Outcome::RunRemote { name: s("m"), tag: s("cloud") }, &extra),
        Some(run_ollama_run("m", "cloud", &extra))
    );
    assert_eq!(
        invocation_for(
            &Outcome::PromptRemote { name: s("m"), tag: s("cloud"), prompt: s("use tts") },
            &extra
        ),
        Some(run_ollama_simple("m", "cloud", "use tts"))
    );
    assert_eq!(invocation_for(&Outcome::Fail { code: 1, message: s("no") }, &extra), None);
}

#[test]
fn remote_outcomes_start_the_registry_client() {
    let cmd = invocation_for(
        &Outcome::PromptRemote { name: s("m"), tag: s("cloud"), prompt: s("use tts") },
        &Vec::new(),
    )
    .unwrap();
    assert_eq!(cmd.program, Program::Ollama);
    assert_eq!(cmd.args, strings(&["run", "m:cloud", "use tts"]));
}

#[test]
fn dry_run_prints_program_and_arguments() {
    assert_eq!(
        dry_run_line("/usr/bin/llama-server", &strings(&["-hf", "owner/repo", "--port", "12434"])),
        "/usr/bin/llama-server -hf owner/repo --port 12434"
    );
    assert_eq!(dry_run_line("ollama", &Vec::new()), "ollama ");
}
