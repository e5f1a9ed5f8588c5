//! A wallpaper cycler: on each qualifying workspace-change notification it
//! consults a change-rate throttle, picks a random image from a catalog built
//! from the backgrounds directory, and builds the external command that hands
//! the image to the chosen wallpaper backend.

pub mod engine;
pub mod time;
pub mod utils;

use vstd::prelude::*;

use crate::engine::{build_invocation, Engine, Invocation};
use crate::time::{current_minute, gate_allows, ChangeGate};
use crate::utils::{CyclerError, ImageCatalog};

verus! {

/// The closed set of supported wallpaper backends.
#[derive(Clone, Copy, Debug, PartialEq, Eq, Structural)]
pub enum Application {
    Swww,
    Hyprpaper,
}

/// The startup configuration: the backgrounds directory, the chosen backend,
/// and the minimum interval between changes in minutes.
#[derive(Debug, Clone)]
pub struct Args {
    pub backgrounds_path: String,
    pub binary: Application,
    pub minutes: Option<i32>,
}

/// A workspace-change notification from the compositor: a change to a regular
/// workspace triggers a cycle; a change to the special workspace is ignored.
#[derive(Debug, Clone)]
pub enum WorkspaceEvent {
    Regular(String),
    Special(Option<String>),
}

/// The configured interval in minutes: the given value where one was given,
/// with a negative value treated as zero ("always change"), else the default
/// of five minutes.
pub open spec fn spec_effective_interval(minutes: Option<i32>) -> u32 {
    match minutes {
        Some(m) => if m < 0 {
            0
        } else {
            m as u32
        },
        None => 5,
    }
}

pub fn effective_interval(minutes: &Option<i32>) -> (r: u32)
    ensures
        r == spec_effective_interval(*minutes),
{
    match minutes {
        Some(m) => if *m < 0 {
            0
        } else {
            *m as u32
        },
        None => 5,
    }
}

/// The shape of a dispatched command: the engine's program, its fixed
/// arguments in order, and as trailing argument one of the catalog's paths,
/// verbatim.
pub open spec fn invocation_dispatches(
    inv: Invocation,
    program: Seq<char>,
    fixed_args: Seq<Seq<char>>,
    catalog: Seq<Seq<char>>,
) -> bool {
    &&& inv.program@ == program
    &&& inv.args@.len() == fixed_args.len() + 1
    &&& forall|k: int| 0 <= k < fixed_args.len() ==> (#[trigger] inv.args@[k])@ == fixed_args[k]
    &&& catalog.contains(inv.args@[inv.args@.len() - 1]@)
}

/// One controller step, fully determined by its inputs. A special-workspace
/// event is ignored without touching the throttle. A regular event asks the
/// throttle first; a denied cycle ends silently with no state change. An accepted
/// cycle picks a random catalog entry and builds the backend invocation whose
/// trailing argument is that entry, verbatim.
pub fn cycle_step<E: Engine>(
    data: &WorkspaceEvent,
    binary: &E,
    valid_image_paths: &ImageCatalog,
    gate: &mut ChangeGate,
    now_minute: u32,
    minutes_between_changes: u32,
) -> (r: Result<Option<Invocation>, CyclerError>)
    requires
        old(gate).wf(),
        now_minute < 60,
    ensures
        final(gate).wf(),
        data matches WorkspaceEvent::Special(_) ==> r == Ok::<Option<Invocation>, CyclerError>(
            None,
        ) && *final(gate) == *old(gate),
        data matches WorkspaceEvent::Regular(_) && !gate_allows(
            old(gate).last_minute(),
            now_minute,
            minutes_between_changes,
        ) ==> r == Ok::<Option<Invocation>, CyclerError>(None) && *final(gate) == *old(gate),
        data matches WorkspaceEvent::Regular(_) && gate_allows(
            old(gate).last_minute(),
            now_minute,
            minutes_between_changes,
        ) ==> (minutes_between_changes == 0 ==> *final(gate) == *old(gate)) && (
        minutes_between_changes != 0 ==> final(gate).last_minute() == now_minute) && (
        valid_image_paths@.len() == 0 ==> r == Err::<Option<Invocation>, CyclerError>(
            CyclerError::EmptyCatalog,
        )) && (valid_image_paths@.len() > 0 ==> (r matches Ok(Some(inv)) && invocation_dispatches(
            inv,
            binary.spec_prefix(),
            binary.spec_args(),
            valid_image_paths@,
        ))),
{
    match data {
        WorkspaceEvent::Special(_) => Ok(None),
        WorkspaceEvent::Regular(_) => {
            if !gate.permit(now_minute, minutes_between_changes) {
                return Ok(None);
            }
            let chosen = match valid_image_paths.pick_random() {
                Ok(p) => p,
                Err(e) => {
                    return Err(e);
                },
            };
            Ok(Some(build_invocation(binary, &chosen)))
        },
    }
}

/// Handles one workspace-change notification: reads the current minute from
/// the clock and runs one controller step at that minute. Whatever minute the
/// clock reports, the step's contract holds for it.
pub fn handle_workspace_change<E: Engine>(
    data: &WorkspaceEvent,
    binary: &E,
    valid_image_paths: &ImageCatalog,
    gate: &mut ChangeGate,
    minutes_between_changes: u32,
) -> (r: Result<Option<Invocation>, CyclerError>)
    requires
        old(gate).wf(),
    ensures
        final(gate).wf(),
        data matches WorkspaceEvent::Special(_) ==> r == Ok::<Option<Invocation>, CyclerError>(
            None,
        ) && *final(gate) == *old(gate),
        r matches Ok(Some(inv)) ==> invocation_dispatches(
            inv,
            binary.spec_prefix(),
            binary.spec_args(),
            valid_image_paths@,
        ),
        r matches Err(e) ==> e == CyclerError::EmptyCatalog && valid_image_paths@.len() == 0,
        r == Ok::<Option<Invocation>, CyclerError>(None) ==> *final(gate) == *old(gate),
        final(gate).last_minute() == old(gate).last_minute() || (minutes_between_changes != 0
            && exists|now: u32|
            now < 60 && final(gate).last_minute() == now && gate_allows(
                old(gate).last_minute(),
                now,
                minutes_between_changes,
            )),
        data matches WorkspaceEvent::Regular(_) && minutes_between_changes == 0
            && valid_image_paths@.len() > 0 ==> (r matches Ok(Some(_)) && *final(gate) == *old(
            gate,
        )),
{
    let now = current_minute();
    cycle_step(data, binary, valid_image_paths, gate, now, minutes_between_changes)
}

} // verus!
