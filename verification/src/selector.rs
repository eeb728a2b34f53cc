//! The backend selector: which backend serves a request, given what is known.
//!
//! The selector never touches the outside world. It is asked with the facts
//! gathered so far and answers with the next question, or with the outcome.
//! A caller starts from `Facts::unknown()`, answers each question by filling
//! in the fact asked for, and asks again until the step is `Step::Finish`.

use vstd::prelude::*;
use vstd::string::*;
use crate::plan::{
    Action, ActionView, Facts, FactsView, Family, Flags, Lookup, LookupView, Outcome, OutcomeView,
    Step, StepView, EXIT_NOT_FOUND, EXIT_USAGE,
};
use crate::ports::{port_choice, port_or_default};
use crate::prompt::{audio_intent, is_audio_prompt, lowercase};
use crate::text::contains_char;
use crate::token::{
    cloud_tag, is_cloud, is_cloud_tag, link_name, link_name_of, model_ref, normalize_model_tag,
    normalized, split_model_tag, tagged, token_name, token_tag,
};

verus! {

/// The family switches agree with the family that the verb belongs to: its
/// own switch is set and the other one is not. A verb of no family accepts all.
pub open spec fn family_allowed(required: Option<Family>, flags: Flags) -> bool {
    match required {
        None => true,
        Some(Family::Registry) => flags.ollama && !flags.llamacpp,
        Some(Family::Engine) => flags.llamacpp && !flags.ollama,
    }
}

/// The hint printed where the switches contradict a verb of `family`.
pub open spec fn usage_hint(family: Family) -> Seq<char> {
    match family {
        Family::Registry => "use -o for ollama mode"@,
        Family::Engine => "use -c for llama.cpp mode"@,
    }
}

/// The complaint where a model is neither in the registry nor offered remotely.
pub open spec fn missing_everywhere(name: Seq<char>, tag: Seq<char>) -> Seq<char> {
    "no local gguf blob found for "@ + tagged(name, tag) + " and cloud unavailable"@
}

/// The complaint where the registry holds no weights for a model.
pub open spec fn missing_in_registry(name: Seq<char>, tag: Seq<char>) -> Seq<char> {
    "no gguf blob found for "@ + tagged(name, tag) + " in ollama library"@
}

/// The complaint where a bare token names nothing, here or remotely.
pub open spec fn model_not_found(model: Seq<char>) -> Seq<char> {
    "model not found: "@ + model
}

/// A failure with the usage exit code.
pub open spec fn usage_failure(message: Seq<char>) -> StepView {
    StepView::Finish(OutcomeView::Fail { code: EXIT_USAGE, message })
}

/// A failure with the not-found exit code.
pub open spec fn lookup_failure(message: Seq<char>) -> StepView {
    StepView::Finish(OutcomeView::Fail { code: EXIT_NOT_FOUND, message })
}

/// Serving a registry model's weight file: linked under the model's
/// normalized name first, then served on the chosen family's port.
pub open spec fn serve_blob(
    blob: Seq<char>,
    name: Seq<char>,
    tag: Seq<char>,
    registry_port: bool,
    port: Option<u16>,
) -> StepView {
    StepView::Finish(
        OutcomeView::ServeFile {
            path: blob,
            port: port_choice(registry_port, port),
            link_as: Some(link_name_of(name, tag)),
        },
    )
}

/// Serving a repository of the model hub needs no facts.
pub open spec fn repo_decision(repo: Seq<char>, port: Option<u16>) -> StepView {
    StepView::Finish(OutcomeView::ServeRepo { repo, port: port_choice(false, port) })
}

/// Serving a registry model: its weights must be on disk.
pub open spec fn registry_decision(model: Seq<char>, port: Option<u16>, facts: FactsView) -> StepView {
    let name = token_name(model);
    let tag = token_tag(model);
    match facts.manifest {
        LookupView::Unknown => StepView::LookupManifest { name, tag },
        LookupView::Found(blob) => serve_blob(blob, name, tag, true, port),
        LookupView::Missing => lookup_failure(missing_in_registry(name, tag)),
    }
}

/// Serving a linked file: the link directory's entry where there is one, else
/// the token itself, read as a path.
pub open spec fn linked_decision(
    model: Seq<char>,
    registry_port: bool,
    port: Option<u16>,
    facts: FactsView,
) -> StepView {
    match facts.link {
        LookupView::Unknown => StepView::LookupLink { token: model },
        LookupView::Found(path) => StepView::Finish(
            OutcomeView::ServeFile { path, port: port_choice(registry_port, port), link_as: None },
        ),
        LookupView::Missing => StepView::Finish(
            OutcomeView::ServeFile {
                path: model,
                port: port_choice(registry_port, port),
                link_as: None,
            },
        ),
    }
}

/// Serving on the registry's port: a tagged target is a registry model, a
/// bare one a linked file.
pub open spec fn either_decision(target: Seq<char>, port: Option<u16>, facts: FactsView) -> StepView {
    if target.contains(':') {
        registry_decision(target, port, facts)
    } else {
        linked_decision(target, true, port, facts)
    }
}

/// Opening the command-line engine: on the link directory's entry where there
/// is one, else on the token itself, read as a path.
pub open spec fn chat_decision(model: Seq<char>, facts: FactsView) -> StepView {
    match facts.link {
        LookupView::Unknown => StepView::LookupLink { token: model },
        LookupView::Found(path) => StepView::Finish(OutcomeView::ChatFile { path }),
        LookupView::Missing => StepView::Finish(OutcomeView::ChatFile { path: model }),
    }
}

/// The caller typed a tag: inside the target, or as an argument of its own.
pub open spec fn tag_is_explicit(target: Seq<char>, tag: Option<Seq<char>>) -> bool {
    target.contains(':') || tag is Some
}

/// The generic run.
///
/// - A cloud tag always goes to the remote backend, under exactly that tag.
/// - Without a typed tag the registry's weights are served where they are on
///   disk; otherwise the model's cloud variant is run remotely, unprobed.
/// - With a typed tag the remote cloud variant is preferred where the probe
///   finds it; otherwise the registry's weights are served; where there are
///   none, the run fails.
pub open spec fn run_decision(
    target: Seq<char>,
    tag: Option<Seq<char>>,
    port: Option<u16>,
    facts: FactsView,
) -> StepView {
    let (name, tag_final) = normalized(target, tag);
    if is_cloud(tag_final) {
        StepView::Finish(OutcomeView::RunRemote { name, tag: tag_final })
    } else if !tag_is_explicit(target, tag) {
        match facts.manifest {
            LookupView::Unknown => StepView::LookupManifest { name, tag: tag_final },
            LookupView::Found(blob) => serve_blob(blob, name, tag_final, false, port),
            LookupView::Missing => StepView::Finish(
                OutcomeView::RunRemote { name, tag: cloud_tag() },
            ),
        }
    } else {
        match facts.cloud {
            None => StepView::ProbeCloud { name },
            Some(true) => StepView::Finish(OutcomeView::RunRemote { name, tag: cloud_tag() }),
            Some(false) => match facts.manifest {
                LookupView::Unknown => StepView::LookupManifest { name, tag: tag_final },
                LookupView::Found(blob) => serve_blob(blob, name, tag_final, false, port),
                LookupView::Missing => lookup_failure(missing_everywhere(name, tag_final)),
            },
        }
    }
}

/// Where a prompt goes once no local file can answer it: to the model's
/// cloud variant if the remote backend offers it.
pub open spec fn remote_fallback(
    name: Seq<char>,
    prompt: Seq<char>,
    complaint: Seq<char>,
    facts: FactsView,
) -> StepView {
    match facts.cloud {
        None => StepView::ProbeCloud { name },
        Some(true) => StepView::Finish(
            OutcomeView::PromptRemote { name, tag: cloud_tag(), prompt },
        ),
        Some(false) => lookup_failure(complaint),
    }
}

/// The one-shot prompt; `audio` says whether its wording asks for speech or sound.
///
/// - An empty prompt is a usage error.
/// - A prompt that asks for speech or sound always goes to the remote
///   backend: under the token's own tag where it has one, else as the cloud
///   variant. Nothing local is looked at.
/// - A tagged token: a cloud tag goes remote; otherwise the registry's weights
///   answer where they are on disk, else the remote cloud variant where the
///   probe finds it, else the prompt fails.
/// - A bare token: the link directory's entry answers where there is one, else
///   the remote cloud variant where the probe finds it, else the prompt fails.
pub open spec fn prompt_decision(
    model: Seq<char>,
    prompt: Seq<char>,
    audio: bool,
    facts: FactsView,
) -> StepView {
    let name = token_name(model);
    let tag = token_tag(model);
    if prompt.len() == 0 {
        usage_failure("missing prompt"@)
    } else if audio {
        if model.contains(':') {
            StepView::Finish(OutcomeView::PromptRemote { name, tag, prompt })
        } else {
            StepView::Finish(OutcomeView::PromptRemote { name: model, tag: cloud_tag(), prompt })
        }
    } else if model.contains(':') {
        if is_cloud(tag) {
            StepView::Finish(OutcomeView::PromptRemote { name, tag, prompt })
        } else {
            match facts.manifest {
                LookupView::Unknown => StepView::LookupManifest { name, tag },
                LookupView::Found(path) => StepView::Finish(
                    OutcomeView::PromptFile { path, prompt },
                ),
                LookupView::Missing => remote_fallback(
                    name,
                    prompt,
                    missing_everywhere(name, tag),
                    facts,
                ),
            }
        }
    } else {
        match facts.link {
            LookupView::Unknown => StepView::LookupLink { token: model },
            LookupView::Found(path) => StepView::Finish(OutcomeView::PromptFile { path, prompt }),
            LookupView::Missing => remote_fallback(model, prompt, model_not_found(model), facts),
        }
    }
}

/// Whether the wording of the action's prompt asks for speech or sound; no
/// other action has a prompt.
pub open spec fn asks_for_audio(action: ActionView) -> bool {
    match action {
        ActionView::Prompt { model, prompt } => audio_intent(lowercase(prompt)),
        _ => false,
    }
}

/// The whole selector: the family guard first, then the action's own rule.
pub open spec fn decision(
    action: ActionView,
    required: Option<Family>,
    flags: Flags,
    facts: FactsView,
    audio: bool,
) -> StepView {
    if !family_allowed(required, flags) {
        usage_failure(usage_hint(required->0))
    } else {
        match action {
            ActionView::ServeRepo { repo } => repo_decision(repo, flags.port),
            ActionView::ServeRegistry { model } => registry_decision(model, flags.port, facts),
            ActionView::ServeEither { target } => either_decision(target, flags.port, facts),
            ActionView::ServeLinked { model } => linked_decision(model, false, flags.port, facts),
            ActionView::Chat { model } => chat_decision(model, facts),
            ActionView::Run { target, tag } => run_decision(target, tag, flags.port, facts),
            ActionView::Prompt { model, prompt } => prompt_decision(model, prompt, audio, facts),
        }
    }
}

/// A step that asks for a fact.
pub open spec fn is_question(step: StepView) -> bool {
    !(step is Finish)
}

/// The fact that a question asks for is not known yet.
pub open spec fn asks_something_new(step: StepView, facts: FactsView) -> bool {
    match step {
        StepView::LookupManifest { .. } => facts.manifest is Unknown,
        StepView::LookupLink { .. } => facts.link is Unknown,
        StepView::ProbeCloud { .. } => facts.cloud is None,
        StepView::Finish(_) => true,
    }
}

/// The number of facts not known yet.
pub open spec fn open_questions(facts: FactsView) -> nat {
    let a: nat = if facts.manifest is Unknown { 1 } else { 0 };
    let b: nat = if facts.link is Unknown { 1 } else { 0 };
    let c: nat = if facts.cloud is None { 1 } else { 0 };
    a + b + c
}

/// The step launches something from a file on disk.
pub open spec fn runs_locally(step: StepView) -> bool {
    step matches StepView::Finish(o) && (o is ServeFile || o is ChatFile || o is PromptFile)
}

/// The step hands the model to the remote backend.
pub open spec fn runs_remotely(step: StepView) -> bool {
    step matches StepView::Finish(o) && (o is RunRemote || o is PromptRemote)
}

/// The step gives up with the given exit code.
pub open spec fn fails_with(step: StepView, code: i32) -> bool {
    step matches StepView::Finish(OutcomeView::Fail { code: c, .. }) && c == code
}

/// Every fact of the world is settled: each question has an answer.
pub open spec fn is_settled(world: FactsView) -> bool {
    !(world.manifest is Unknown) && !(world.link is Unknown) && world.cloud is Some
}

/// What a caller knows after answering a question from what the world holds.
pub open spec fn answered(step: StepView, world: FactsView, known: FactsView) -> FactsView {
    match step {
        StepView::LookupManifest { .. } => FactsView { manifest: world.manifest, ..known },
        StepView::LookupLink { .. } => FactsView { link: world.link, ..known },
        StepView::ProbeCloud { .. } => FactsView { cloud: world.cloud, ..known },
        StepView::Finish(_) => known,
    }
}

/// Where a caller ends who follows the selector for at most `steps` questions,
/// answering each from what the world holds; nowhere if cut short.
pub open spec fn outcome_from(
    action: ActionView,
    required: Option<Family>,
    flags: Flags,
    world: FactsView,
    known: FactsView,
    audio: bool,
    steps: nat,
) -> Option<OutcomeView>
    decreases steps,
{
    match decision(action, required, flags, known, audio) {
        StepView::Finish(outcome) => Some(outcome),
        step => if steps == 0 {
            None
        } else {
            outcome_from(
                action,
                required,
                flags,
                world,
                answered(step, world, known),
                audio,
                (steps - 1) as nat,
            )
        },
    }
}

/// Where a request ends in a given world, for a caller who starts out knowing
/// nothing. Three questions are all that the selector can ask.
pub open spec fn outcome_in(
    action: ActionView,
    required: Option<Family>,
    flags: Flags,
    world: FactsView,
    audio: bool,
) -> Option<OutcomeView> {
    outcome_from(
        action,
        required,
        flags,
        world,
        FactsView { manifest: LookupView::Unknown, link: LookupView::Unknown, cloud: None },
        audio,
        3,
    )
}

/// Where the generic run ends, in one formula.
pub open spec fn run_outcome(
    target: Seq<char>,
    tag: Option<Seq<char>>,
    port: Option<u16>,
    world: FactsView,
) -> OutcomeView {
    let (name, tag_final) = normalized(target, tag);
    let local = OutcomeView::ServeFile {
        path: world.manifest->Found_0,
        port: port_choice(false, port),
        link_as: Some(link_name_of(name, tag_final)),
    };
    let cloud = OutcomeView::RunRemote { name, tag: cloud_tag() };
    if is_cloud(tag_final) {
        OutcomeView::RunRemote { name, tag: tag_final }
    } else if !tag_is_explicit(target, tag) {
        if world.manifest is Found {
            local
        } else {
            cloud
        }
    } else if world.cloud == Some(true) {
        cloud
    } else if world.manifest is Found {
        local
    } else {
        OutcomeView::Fail { code: EXIT_NOT_FOUND, message: missing_everywhere(name, tag_final) }
    }
}

/// Where the one-shot prompt ends, in one formula.
pub open spec fn prompt_outcome(
    model: Seq<char>,
    prompt: Seq<char>,
    audio: bool,
    world: FactsView,
) -> OutcomeView {
    let name = token_name(model);
    let tag = token_tag(model);
    let tagged_token = model.contains(':');
    let local = if tagged_token {
        world.manifest
    } else {
        world.link
    };
    if prompt.len() == 0 {
        OutcomeView::Fail { code: EXIT_USAGE, message: "missing prompt"@ }
    } else if tagged_token && (audio || is_cloud(tag)) {
        OutcomeView::PromptRemote { name, tag, prompt }
    } else if audio {
        OutcomeView::PromptRemote { name: model, tag: cloud_tag(), prompt }
    } else if local is Found {
        OutcomeView::PromptFile { path: local->Found_0, prompt }
    } else if world.cloud == Some(true) {
        OutcomeView::PromptRemote {
            name: if tagged_token {
                name
            } else {
                model
            },
            tag: cloud_tag(),
            prompt,
        }
    } else {
        OutcomeView::Fail {
            code: EXIT_NOT_FOUND,
            message: if tagged_token {
                missing_everywhere(name, tag)
            } else {
                model_not_found(model)
            },
        }
    }
}

/// The selector only asks for what it does not know yet, so every answer
/// brings it closer to an outcome: a caller that fills in the fact asked for
/// is done after at most three questions.
pub proof fn lemma_questions_are_new(
    action: ActionView,
    required: Option<Family>,
    flags: Flags,
    facts: FactsView,
    audio: bool,
)
    ensures
        asks_something_new(decision(action, required, flags, facts, audio), facts),
        is_question(decision(action, required, flags, facts, audio)) ==> open_questions(facts) > 0,
        open_questions(facts) == 0 ==> decision(action, required, flags, facts, audio) is Finish,
{
}

/// Switches that contradict the verb's family end the request with the usage
/// exit code whatever is known: no question is asked, so nothing outside is
/// touched. Both switches at once contradict every family.
pub proof fn lemma_family_conflict_is_final(
    action: ActionView,
    family: Family,
    flags: Flags,
    facts: FactsView,
    audio: bool,
)
    ensures
        flags.ollama && flags.llamacpp ==> !family_allowed(Some(family), flags),
        !family_allowed(Some(family), flags) ==> decision(action, Some(family), flags, facts, audio)
            == usage_failure(usage_hint(family)),
        !family_allowed(Some(family), flags) ==> fails_with(
            decision(action, Some(family), flags, facts, audio),
            EXIT_USAGE,
        ),
{
}

/// A prompt that asks for speech or sound goes to the remote backend whatever
/// is on disk: no fact is asked for, and no fact changes the outcome.
pub proof fn lemma_audio_prompt_goes_remote(
    model: Seq<char>,
    prompt: Seq<char>,
    facts: FactsView,
    other: FactsView,
)
    requires
        prompt.len() > 0,
    ensures
        runs_remotely(prompt_decision(model, prompt, true, facts)),
        prompt_decision(model, prompt, true, facts) == prompt_decision(model, prompt, true, other),
{
}

/// A cloud tag sends the generic run to the remote backend under that very
/// tag, whatever is known.
pub proof fn lemma_cloud_tag_goes_remote(
    target: Seq<char>,
    tag: Option<Seq<char>>,
    port: Option<u16>,
    facts: FactsView,
)
    requires
        is_cloud(normalized(target, tag).1),
    ensures
        run_decision(target, tag, port, facts) == StepView::Finish(
            OutcomeView::RunRemote {
                name: normalized(target, tag).0,
                tag: normalized(target, tag).1,
            },
        ),
{
}

/// The generic run launches a local file only if the registry's manifest led
/// to one, and then it serves exactly that file; it gives up only if a tag was
/// typed, the remote probe failed and the registry holds nothing, and then
/// with the not-found exit code.
pub proof fn lemma_run_outcomes(
    target: Seq<char>,
    tag: Option<Seq<char>>,
    port: Option<u16>,
    facts: FactsView,
)
    ensures
        runs_locally(run_decision(target, tag, port, facts)) ==> facts.manifest is Found
            && run_decision(target, tag, port, facts) == serve_blob(
            facts.manifest->Found_0,
            normalized(target, tag).0,
            normalized(target, tag).1,
            false,
            port,
        ),
        (run_decision(target, tag, port, facts) matches StepView::Finish(o) && o is Fail) <==> (
        !is_cloud(normalized(target, tag).1) && tag_is_explicit(target, tag) && facts.cloud
            == Some(false) && facts.manifest is Missing),
        (run_decision(target, tag, port, facts) matches StepView::Finish(o) && o is Fail)
            ==> fails_with(run_decision(target, tag, port, facts), EXIT_NOT_FOUND),
        !tag_is_explicit(target, tag) ==> !(run_decision(target, tag, port, facts) is ProbeCloud),
{
}

/// A one-shot prompt is answered from a local file only if a lookup found
/// one; it fails for want of a model only if the local lookup found nothing
/// and the remote probe failed.
pub proof fn lemma_prompt_outcomes(
    model: Seq<char>,
    prompt: Seq<char>,
    audio: bool,
    facts: FactsView,
)
    ensures
        runs_locally(prompt_decision(model, prompt, audio, facts)) ==> (facts.manifest is Found
            || facts.link is Found),
        fails_with(prompt_decision(model, prompt, audio, facts), EXIT_NOT_FOUND) ==> facts.cloud
            == Some(false) && (facts.manifest is Missing || facts.link is Missing),
        fails_with(prompt_decision(model, prompt, audio, facts), EXIT_USAGE) <==> prompt.len() == 0,
{
}

/// In a settled world every request comes to an outcome: a caller who
/// answers the selector's questions is never left without a decision.
pub proof fn lemma_every_request_ends(
    action: ActionView,
    required: Option<Family>,
    flags: Flags,
    world: FactsView,
    audio: bool,
)
    requires
        is_settled(world),
    ensures
        outcome_in(action, required, flags, world, audio) is Some,
{
    reveal_with_fuel(outcome_from, 4);
}

/// The generic run, followed to its end: a cloud tag goes remote as typed;
/// without a typed tag local weights are served, else the cloud variant is
/// run; with a typed tag the cloud variant is preferred where the probe finds
/// it, then local weights, and with neither the run fails for want of a model.
pub proof fn lemma_run_ends_as_described(
    target: Seq<char>,
    tag: Option<Seq<char>>,
    flags: Flags,
    world: FactsView,
    audio: bool,
)
    requires
        is_settled(world),
    ensures
        outcome_in(ActionView::Run { target, tag }, None, flags, world, audio) == Some(
            run_outcome(target, tag, flags.port, world),
        ),
{
    reveal_with_fuel(outcome_from, 4);
}

/// The one-shot prompt, followed to its end: an empty prompt is refused; a
/// prompt that asks for speech or sound, or a cloud tag, goes remote; else a
/// local file answers where the lookup finds one, else the cloud variant
/// where the probe finds it, and with neither the prompt fails for want of a
/// model.
pub proof fn lemma_prompt_ends_as_described(
    model: Seq<char>,
    prompt: Seq<char>,
    flags: Flags,
    world: FactsView,
    audio: bool,
)
    requires
        is_settled(world),
    ensures
        outcome_in(ActionView::Prompt { model, prompt }, None, flags, world, audio) == Some(
            prompt_outcome(model, prompt, audio, world),
        ),
{
    reveal_with_fuel(outcome_from, 4);
}

/// With a tag typed, no weights on disk and no cloud variant on offer, the
/// generic run ends with the not-found exit code and a complaint that names
/// both.
pub proof fn lemma_run_without_any_model_fails(
    target: Seq<char>,
    tag: Option<Seq<char>>,
    flags: Flags,
    world: FactsView,
    audio: bool,
)
    requires
        is_settled(world),
        tag_is_explicit(target, tag),
        !is_cloud(normalized(target, tag).1),
        world.manifest is Missing,
        world.cloud == Some(false),
    ensures
        outcome_in(ActionView::Run { target, tag }, None, flags, world, audio) == Some(
            OutcomeView::Fail {
                code: EXIT_NOT_FOUND,
                message: missing_everywhere(normalized(target, tag).0, normalized(target, tag).1),
            },
        ),
{
    lemma_run_ends_as_described(target, tag, flags, world, audio);
}

/// Whether the family switches agree with the family that the verb belongs to.
pub fn check_family(required: Option<Family>, flags: &Flags) -> (ok: bool)
    ensures
        ok == family_allowed(required, *flags),
{
    match required {
        None => true,
        Some(Family::Registry) => flags.ollama && !flags.llamacpp,
        Some(Family::Engine) => flags.llamacpp && !flags.ollama,
    }
}

/// The end of a request that cannot be served.
fn fail(code: i32, message: String) -> (step: Step)
    ensures
        step@ == StepView::Finish(OutcomeView::Fail { code, message: message@ }),
{
    Step::Finish(Outcome::Fail { code, message })
}

/// The end of a request whose switches contradict its verb.
fn family_conflict(family: Family) -> (step: Step)
    ensures
        step@ == usage_failure(usage_hint(family)),
{
    match family {
        Family::Registry => fail(EXIT_USAGE, String::from_str("use -o for ollama mode")),
        Family::Engine => fail(EXIT_USAGE, String::from_str("use -c for llama.cpp mode")),
    }
}

/// The complaint where a model is neither in the registry nor offered remotely.
fn missing_everywhere_text(name: &str, tag: &str) -> (m: String)
    ensures
        m@ == missing_everywhere(name@, tag@),
{
    let mut m: String = String::from_str("no local gguf blob found for ");
    m.append(model_ref(name, tag).as_str());
    m.append(" and cloud unavailable");
    m
}

/// The complaint where the registry holds no weights for a model.
fn missing_in_registry_text(name: &str, tag: &str) -> (m: String)
    ensures
        m@ == missing_in_registry(name@, tag@),
{
    let mut m: String = String::from_str("no gguf blob found for ");
    m.append(model_ref(name, tag).as_str());
    m.append(" in ollama library");
    m
}

/// The complaint where a bare token names nothing, here or remotely.
fn model_not_found_text(model: &str) -> (m: String)
    ensures
        m@ == model_not_found(model@),
{
    let mut m: String = String::from_str("model not found: ");
    m.append(model);
    m
}

/// Serving a registry model's weight file under its normalized link name.
fn serve_blob_step(blob: &String, name: &str, tag: &str, registry_port: bool, port: Option<u16>) -> (step:
    Step)
    ensures
        step@ == serve_blob(blob@, name@, tag@, registry_port, port),
{
    Step::Finish(
        Outcome::ServeFile {
            path: blob.clone(),
            port: port_or_default(registry_port, port),
            link_as: Some(link_name(name, tag)),
        },
    )
}

/// Handing the cloud variant of `name` to the remote backend.
fn run_cloud(name: String) -> (step: Step)
    ensures
        step@ == StepView::Finish(OutcomeView::RunRemote { name: name@, tag: cloud_tag() }),
{
    Step::Finish(Outcome::RunRemote { name, tag: String::from_str("cloud") })
}

/// Decides how to serve a repository of the model hub.
pub fn decide_repo(repo: &str, port: Option<u16>) -> (step: Step)
    ensures
        step@ == repo_decision(repo@, port),
{
    Step::Finish(
        Outcome::ServeRepo { repo: String::from_str(repo), port: port_or_default(false, port) },
    )
}

/// Decides how to serve a registry model.
pub fn decide_registry(model: &str, port: Option<u16>, facts: &Facts) -> (step: Step)
    ensures
        step@ == registry_decision(model@, port, facts@),
{
    let (name, tag) = split_model_tag(model);
    match &facts.manifest {
        Lookup::Unknown => Step::LookupManifest { name, tag },
        Lookup::Found(blob) => serve_blob_step(blob, name.as_str(), tag.as_str(), true, port),
        Lookup::Missing => fail(
            EXIT_NOT_FOUND,
            missing_in_registry_text(name.as_str(), tag.as_str()),
        ),
    }
}

/// Decides how to serve a linked file.
pub fn decide_linked(model: &str, registry_port: bool, port: Option<u16>, facts: &Facts) -> (step:
    Step)
    ensures
        step@ == linked_decision(model@, registry_port, port, facts@),
{
    match &facts.link {
        Lookup::Unknown => Step::LookupLink { token: String::from_str(model) },
        Lookup::Found(path) => Step::Finish(
            Outcome::ServeFile {
                path: path.clone(),
                port: port_or_default(registry_port, port),
                link_as: None,
            },
        ),
        Lookup::Missing => Step::Finish(
            Outcome::ServeFile {
                path: String::from_str(model),
                port: port_or_default(registry_port, port),
                link_as: None,
            },
        ),
    }
}

/// Decides how to serve a target on the registry's port.
pub fn decide_either(target: &str, port: Option<u16>, facts: &Facts) -> (step: Step)
    ensures
        step@ == either_decision(target@, port, facts@),
{
    if contains_char(target, ':') {
        decide_registry(target, port, facts)
    } else {
        decide_linked(target, true, port, facts)
    }
}

/// Decides on which file to open the command-line engine.
pub fn decide_chat(model: &str, facts: &Facts) -> (step: Step)
    ensures
        step@ == chat_decision(model@, facts@),
{
    match &facts.link {
        Lookup::Unknown => Step::LookupLink { token: String::from_str(model) },
        Lookup::Found(path) => Step::Finish(Outcome::ChatFile { path: path.clone() }),
        Lookup::Missing => Step::Finish(Outcome::ChatFile { path: String::from_str(model) }),
    }
}

/// Decides the generic run.
pub fn decide_run(target: &str, tag: Option<&str>, port: Option<u16>, facts: &Facts) -> (step: Step)
    ensures
        step@ == run_decision(
            target@,
            match tag {
                Some(t) => Some(t@),
                None => None,
            },
            port,
            facts@,
        ),
{
    let explicit: bool = contains_char(target, ':') || tag.is_some();
    let (name, tag_final) = normalize_model_tag(target, tag);
    if is_cloud_tag(tag_final.as_str()) {
        Step::Finish(Outcome::RunRemote { name, tag: tag_final })
    } else if !explicit {
        match &facts.manifest {
            Lookup::Unknown => Step::LookupManifest { name, tag: tag_final },
            Lookup::Found(blob) => serve_blob_step(
                blob,
                name.as_str(),
                tag_final.as_str(),
                false,
                port,
            ),
            Lookup::Missing => run_cloud(name),
        }
    } else {
        match facts.cloud {
            None => Step::ProbeCloud { name },
            Some(true) => run_cloud(name),
            Some(false) => match &facts.manifest {
                Lookup::Unknown => Step::LookupManifest { name, tag: tag_final },
                Lookup::Found(blob) => serve_blob_step(
                    blob,
                    name.as_str(),
                    tag_final.as_str(),
                    false,
                    port,
                ),
                Lookup::Missing => fail(
                    EXIT_NOT_FOUND,
                    missing_everywhere_text(name.as_str(), tag_final.as_str()),
                ),
            },
        }
    }
}

/// Sends a prompt that no local file can answer to the remote cloud variant,
/// once the probe has found it.
fn fall_back_to_remote(name: String, prompt: &str, complaint: String, facts: &Facts) -> (step: Step)
    ensures
        step@ == remote_fallback(name@, prompt@, complaint@, facts@),
{
    match facts.cloud {
        None => Step::ProbeCloud { name },
        Some(true) => Step::Finish(
            Outcome::PromptRemote {
                name,
                tag: String::from_str("cloud"),
                prompt: String::from_str(prompt),
            },
        ),
        Some(false) => fail(EXIT_NOT_FOUND, complaint),
    }
}

/// Decides the one-shot prompt; `audio` says whether its wording asks for
/// speech or sound.
pub fn decide_prompt(model: &str, prompt: &str, audio: bool, facts: &Facts) -> (step: Step)
    ensures
        step@ == prompt_decision(model@, prompt@, audio, facts@),
{
    if prompt.is_empty() {
        return fail(EXIT_USAGE, String::from_str("missing prompt"));
    }
    let has_tag: bool = contains_char(model, ':');
    let (name, tag) = split_model_tag(model);
    if audio {
        if has_tag {
            Step::Finish(Outcome::PromptRemote { name, tag, prompt: String::from_str(prompt) })
        } else {
            Step::Finish(
                Outcome::PromptRemote {
                    name: String::from_str(model),
                    tag: String::from_str("cloud"),
                    prompt: String::from_str(prompt),
                },
            )
        }
    } else if has_tag {
        if is_cloud_tag(tag.as_str()) {
            Step::Finish(Outcome::PromptRemote { name, tag, prompt: String::from_str(prompt) })
        } else {
            match &facts.manifest {
                Lookup::Unknown => Step::LookupManifest { name, tag },
                Lookup::Found(path) => Step::Finish(
                    Outcome::PromptFile { path: path.clone(), prompt: String::from_str(prompt) },
                ),
                Lookup::Missing => {
                    let complaint: String = missing_everywhere_text(name.as_str(), tag.as_str());
                    fall_back_to_remote(name, prompt, complaint, facts)
                },
            }
        }
    } else {
        match &facts.link {
            Lookup::Unknown => Step::LookupLink { token: String::from_str(model) },
            Lookup::Found(path) => Step::Finish(
                Outcome::PromptFile { path: path.clone(), prompt: String::from_str(prompt) },
            ),
            Lookup::Missing => fall_back_to_remote(
                String::from_str(model),
                prompt,
                model_not_found_text(model),
                facts,
            ),
        }
    }
}

/// The selector's next step for a request, given the facts gathered so far.
///
/// Whether a prompt asks for speech or sound is judged on its lower-case form.
pub fn decide(action: &Action, required: Option<Family>, flags: &Flags, facts: &Facts) -> (step:
    Step)
    ensures
        step@ == decision(action@, required, *flags, facts@, asks_for_audio(action@)),
{
    if !check_family(required, flags) {
        match required {
            Some(family) => {
                return family_conflict(family);
            },
            None => {},
        }
    }
    match action {
        Action::ServeRepo { repo } => decide_repo(repo.as_str(), flags.port),
        Action::ServeRegistry { model } => decide_registry(model.as_str(), flags.port, facts),
        Action::ServeEither { target } => decide_either(target.as_str(), flags.port, facts),
        Action::ServeLinked { model } => decide_linked(model.as_str(), false, flags.port, facts),
        Action::Chat { model } => decide_chat(model.as_str(), facts),
        Action::Run { target, tag } => {
            let tag_text: Option<&str> = match tag {
                Some(t) => Some(t.as_str()),
                None => None,
            };
            decide_run(target.as_str(), tag_text, flags.port, facts)
        },
        Action::Prompt { model, prompt } => {
            let audio: bool = is_audio_prompt(prompt.as_str());
            decide_prompt(model.as_str(), prompt.as_str(), audio, facts)
        },
    }
}

} // verus!
