//! The link materializer: giving a weight file a stable name in the link
//! directory.
//!
//! The materializer decides; the caller acts. Starting from
//! `LinkFacts::unknown()`, the caller asks `LinkJob::next` what to do, does
//! it, records how it went and asks again, until the step is `LinkStep::Done`.
//!
//! The laws at the end of this module are stated over a small model of the
//! destination: it is either empty or holds a link to, or a copy of, some
//! source. Removing empties it if it succeeds; a symbolic link can only be
//! made where nothing stands yet; a copy overwrites. A failed operation
//! changes nothing.

use vstd::prelude::*;
use vstd::string::*;
use crate::paths::{file_name, has_file_name, join_path, joined_path, last_component, names_a_file};

verus! {

/// How the operations of one materialization went, as far as they were made.
#[derive(Clone, Copy, Debug, PartialEq, Eq, Structural)]
pub struct LinkFacts {
    /// Whether the destination exists.
    pub dest_exists: Option<bool>,
    /// Whether removing the destination succeeded.
    pub removed: Option<bool>,
    /// Whether making the symbolic link succeeded.
    pub symlinked: Option<bool>,
    /// Whether copying the source succeeded.
    pub copied: Option<bool>,
}

/// How a materialization ended.
#[derive(Clone, Copy, Debug, PartialEq, Eq, Structural)]
pub enum LinkResult {
    /// The destination existed and was left as it is.
    Kept,
    /// The destination is now a symbolic link to the source.
    Linked,
    /// The destination is now a copy of the source.
    Copied,
    /// Neither linking nor copying succeeded; the copy's error is the caller's to report.
    Failed,
}

/// What the materializer wants done next.
#[derive(Clone, Copy, Debug, PartialEq, Eq, Structural)]
pub enum LinkStep {
    /// Find out whether the destination exists.
    ProbeDest,
    /// Remove the destination; a failure is to be recorded, not reported.
    RemoveDest,
    /// Make a symbolic link from the destination to the source.
    Symlink,
    /// Copy the source to the destination.
    Copy,
    /// Nothing more.
    Done(LinkResult),
}

/// A weight file to be linked, and where.
#[derive(Clone, Debug, PartialEq, Eq)]
pub struct LinkJob {
    /// The weight file.
    pub source: String,
    /// Its place in the link directory.
    pub dest: String,
    /// Whether an existing destination is to be replaced.
    pub force: bool,
}

/// Nothing has been done yet.
pub open spec fn no_link_facts() -> LinkFacts {
    LinkFacts { dest_exists: None, removed: None, symlinked: None, copied: None }
}

/// The next step of a materialization.
///
/// - An existing destination is kept unless `force` is set; with `force` it
///   is removed first, and whether that succeeded does not matter.
/// - Then a symbolic link is tried, and only if that fails, a copy.
/// - The outcome is a failure only if the copy failed.
pub open spec fn link_decision(force: bool, facts: LinkFacts) -> LinkStep {
    match facts.dest_exists {
        None => LinkStep::ProbeDest,
        Some(exists) => if exists && !force {
            LinkStep::Done(LinkResult::Kept)
        } else if exists && facts.removed is None {
            LinkStep::RemoveDest
        } else {
            match facts.symlinked {
                None => LinkStep::Symlink,
                Some(true) => LinkStep::Done(LinkResult::Linked),
                Some(false) => match facts.copied {
                    None => LinkStep::Copy,
                    Some(true) => LinkStep::Done(LinkResult::Copied),
                    Some(false) => LinkStep::Done(LinkResult::Failed),
                },
            }
        },
    }
}

/// The materialization reports success to its caller.
pub open spec fn link_succeeded(result: LinkResult) -> bool {
    result != LinkResult::Failed
}

/// What stands at a destination: nothing, or a link to or copy of a source.
pub type Slot = Option<Seq<char>>;

/// How the operations on the file system would go if they were made.
pub struct World {
    /// Removing the destination succeeds.
    pub remove_ok: bool,
    /// Symbolic links can be made here.
    pub symlink_ok: bool,
    /// Copying the source succeeds.
    pub copy_ok: bool,
}

/// The destination and the facts after the caller has carried out `step`.
pub open spec fn carry_out(
    step: LinkStep,
    source: Seq<char>,
    slot: Slot,
    world: World,
    facts: LinkFacts,
) -> (Slot, LinkFacts) {
    match step {
        LinkStep::ProbeDest => (slot, LinkFacts { dest_exists: Some(slot is Some), ..facts }),
        LinkStep::RemoveDest => if world.remove_ok {
            (None, LinkFacts { removed: Some(true), ..facts })
        } else {
            (slot, LinkFacts { removed: Some(false), ..facts })
        },
        LinkStep::Symlink => if world.symlink_ok && slot is None {
            (Some(source), LinkFacts { symlinked: Some(true), ..facts })
        } else {
            (slot, LinkFacts { symlinked: Some(false), ..facts })
        },
        LinkStep::Copy => if world.copy_ok {
            (Some(source), LinkFacts { copied: Some(true), ..facts })
        } else {
            (slot, LinkFacts { copied: Some(false), ..facts })
        },
        LinkStep::Done(_) => (slot, facts),
    }
}

/// The destination and the result once a caller has followed the
/// materializer for at most `steps` steps; a caller that is cut short
/// reports a failure.
pub open spec fn materialize_from(
    source: Seq<char>,
    force: bool,
    slot: Slot,
    world: World,
    facts: LinkFacts,
    steps: nat,
) -> (Slot, LinkResult)
    decreases steps,
{
    match link_decision(force, facts) {
        LinkStep::Done(result) => (slot, result),
        step => if steps == 0 {
            (slot, LinkResult::Failed)
        } else {
            let (next_slot, next_facts) = carry_out(step, source, slot, world, facts);
            materialize_from(source, force, next_slot, world, next_facts, (steps - 1) as nat)
        },
    }
}

/// The destination and the result of one whole materialization. Four steps
/// are all that the materializer can ask for.
pub open spec fn materialize(source: Seq<char>, force: bool, slot: Slot, world: World) -> (
    Slot,
    LinkResult,
) {
    materialize_from(source, force, slot, world, no_link_facts(), 4)
}

/// The number of operations not made yet.
pub open spec fn open_link_questions(facts: LinkFacts) -> nat {
    let a: nat = if facts.dest_exists is None { 1 } else { 0 };
    let b: nat = if facts.removed is None { 1 } else { 0 };
    let c: nat = if facts.symlinked is None { 1 } else { 0 };
    let d: nat = if facts.copied is None { 1 } else { 0 };
    a + b + c + d
}

impl LinkFacts {
    /// Nothing has been done yet.
    pub fn unknown() -> (facts: LinkFacts)
        ensures
            facts == no_link_facts(),
    {
        LinkFacts { dest_exists: None, removed: None, symlinked: None, copied: None }
    }
}

impl LinkJob {
    /// The next step of this job, given how its operations went so far.
    pub fn next(&self, facts: &LinkFacts) -> (step: LinkStep)
        ensures
            step == link_decision(self.force, *facts),
    {
        link_step(self.force, facts)
    }
}

/// The next step of a materialization.
pub fn link_step(force: bool, facts: &LinkFacts) -> (step: LinkStep)
    ensures
        step == link_decision(force, *facts),
{
    match facts.dest_exists {
        None => LinkStep::ProbeDest,
        Some(exists) => {
            if exists && !force {
                LinkStep::Done(LinkResult::Kept)
            } else if exists && facts.removed.is_none() {
                LinkStep::RemoveDest
            } else {
                match facts.symlinked {
                    None => LinkStep::Symlink,
                    Some(true) => LinkStep::Done(LinkResult::Linked),
                    Some(false) => match facts.copied {
                        None => LinkStep::Copy,
                        Some(true) => LinkStep::Done(LinkResult::Copied),
                        Some(false) => LinkStep::Done(LinkResult::Failed),
                    },
                }
            }
        },
    }
}

/// Whether a materialization that ended with `result` reports success.
pub fn link_ok(result: LinkResult) -> (ok: bool)
    ensures
        ok == link_succeeded(result),
{
    match result {
        LinkResult::Failed => false,
        _ => true,
    }
}

/// The job of linking a weight file into the link directory under a name of
/// the caller's choice.
pub fn symlink_named_into_guffy(src: &str, link_name: &str, models_dir: &str, force: bool) -> (job:
    LinkJob)
    ensures
        job.source@ == src@,
        job.dest@ == joined_path(models_dir@, link_name@),
        job.force == force,
{
    LinkJob { source: String::from_str(src), dest: join_path(models_dir, link_name), force }
}

/// The job of linking a weight file into the link directory under its own
/// file name; none for a source without a file name.
pub fn symlink_into_guffy(src: &str, models_dir: &str, force: bool) -> (job: Option<LinkJob>)
    ensures
        job is Some <==> names_a_file(src@),
        job matches Some(j) ==> {
            &&& j.source@ == src@
            &&& j.dest@ == joined_path(models_dir@, last_component(src@))
            &&& j.force == force
        },
{
    if has_file_name(src) {
        let name: String = file_name(src);
        Some(symlink_named_into_guffy(src, name.as_str(), models_dir, force))
    } else {
        None
    }
}

/// The materializer only asks for operations not made yet, so a caller who
/// records each operation is done after at most four of them.
pub proof fn lemma_link_steps_are_new(force: bool, facts: LinkFacts)
    ensures
        match link_decision(force, facts) {
            LinkStep::ProbeDest => facts.dest_exists is None,
            LinkStep::RemoveDest => facts.removed is None,
            LinkStep::Symlink => facts.symlinked is None,
            LinkStep::Copy => facts.copied is None,
            LinkStep::Done(_) => true,
        },
        open_link_questions(facts) == 0 ==> link_decision(force, facts) is Done,
{
}

/// How a whole materialization ends, in one formula. An existing destination
/// is kept unless `force` is set. Otherwise the destination becomes a link
/// where links can be made and nothing stands in the way; failing that, a
/// copy where copying succeeds; and only where both fail does the
/// materialization fail, leaving what the removal left.
pub proof fn lemma_materialize_outcome(source: Seq<char>, force: bool, slot: Slot, world: World)
    ensures
        materialize(source, force, slot, world) == (if slot is Some && !force {
            (slot, LinkResult::Kept)
        } else {
            let cleared: Slot = if world.remove_ok {
                None
            } else {
                slot
            };
            if world.symlink_ok && cleared is None {
                (Some(source), LinkResult::Linked)
            } else if world.copy_ok {
                (Some(source), LinkResult::Copied)
            } else {
                (cleared, LinkResult::Failed)
            }
        }),
{
    reveal_with_fuel(materialize_from, 5);
}

/// A materialization that succeeds leaves something at the destination.
pub proof fn lemma_success_fills_destination(source: Seq<char>, force: bool, slot: Slot, world: World)
    ensures
        link_succeeded(materialize(source, force, slot, world).1) ==> materialize(
            source,
            force,
            slot,
            world,
        ).0 is Some,
{
    reveal_with_fuel(materialize_from, 5);
}

/// Materializing twice without `force`: if the first time succeeds, the
/// second time changes nothing and succeeds too, whatever the file system
/// would have allowed.
pub proof fn lemma_relink_changes_nothing(
    source: Seq<char>,
    slot: Slot,
    first_world: World,
    second_world: World,
)
    requires
        link_succeeded(materialize(source, false, slot, first_world).1),
    ensures
        materialize(source, false, materialize(source, false, slot, first_world).0, second_world)
            == (materialize(source, false, slot, first_world).0, LinkResult::Kept),
{
    reveal_with_fuel(materialize_from, 5);
}

/// Materializing with `force` over an existing destination: if it succeeds,
/// the destination is a link to, or a copy of, the new source, whatever it
/// was before.
pub proof fn lemma_force_replaces(source: Seq<char>, slot: Slot, world: World)
    requires
        slot is Some,
        link_succeeded(materialize(source, true, slot, world).1),
    ensures
        materialize(source, true, slot, world).0 == Some(source),
        materialize(source, true, slot, world).1 != LinkResult::Kept,
{
    reveal_with_fuel(materialize_from, 5);
}

/// Without `force` an existing destination is never touched: the only step
/// after the probe is to stop.
pub proof fn lemma_existing_destination_is_kept(facts: LinkFacts)
    requires
        facts.dest_exists == Some(true),
    ensures
        link_decision(false, facts) == LinkStep::Done(LinkResult::Kept),
{
}

} // verus!
