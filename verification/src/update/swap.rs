//! Replacing one installed file by a staged one: move the installed file
//! aside to a backup, then move the staged file into its place.
//!
//! The replacement is written as a small machine. The caller performs the
//! file operation the machine asks for, reports whether it succeeded, and
//! asks again, until the machine asks for nothing more. What the protocol
//! does to an installation is stated and proved on a model of the three
//! files involved.
use vstd::prelude::*;
use crate::update::asset::{main_executable_name, main_name, preview_executable_name, preview_name};

verus! {

/// One file to replace: where it is installed and where its replacement
/// has been staged.
#[derive(Debug)]
pub struct SwapUnit {
    pub target_path: String,
    pub replacement_path: String,
}

/// Which installed file a staged file replaces.
#[derive(Debug)]
pub enum SwapTarget {
    /// The executable that the helper was told to replace, whatever its
    /// file name.
    TargetExecutable,
    /// The file of this name in the directory of that executable.
    BesideTarget(String),
}

/// A replacement that an update consists of: a file of the staging
/// directory and the installed file it replaces.
#[derive(Debug)]
pub struct RequiredSwap {
    pub target: SwapTarget,
    pub staged_name: String,
}

/// The mathematical content of a [`RequiredSwap`]: the name of the file
/// beside the target, or `None` for the target itself, and the staged
/// file's name.
pub open spec fn swap_model(swap: RequiredSwap) -> (Option<Seq<char>>, Seq<char>) {
    (
        match swap.target {
            SwapTarget::TargetExecutable => None,
            SwapTarget::BesideTarget(name) => Some(name@),
        },
        swap.staged_name@,
    )
}

/// The replacements of an update on `os`, in their order: the staged main
/// executable replaces the target, then the staged preview renderer
/// replaces the one beside the target.
pub open spec fn update_swaps(os: Seq<char>) -> Seq<(Option<Seq<char>>, Seq<char>)> {
    seq![(None, main_name(os)), (Some(preview_name(os)), preview_name(os))]
}

/// The replacements that an update on `os` consists of, in their order.
pub fn required_swaps(os: &str) -> (r: Vec<RequiredSwap>)
    ensures
        Seq::new(r@.len(), |i: int| swap_model(r@[i])) == update_swaps(os@),
{
    let mut r: Vec<RequiredSwap> = Vec::new();
    r.push(
        RequiredSwap { target: SwapTarget::TargetExecutable, staged_name: main_executable_name(os) },
    );
    r.push(
        RequiredSwap {
            target: SwapTarget::BesideTarget(preview_executable_name(os)),
            staged_name: preview_executable_name(os),
        },
    );
    assert(Seq::new(r@.len(), |i: int| swap_model(r@[i])) =~= update_swaps(os@));
    r
}

/// Why a replacement did not take place.
#[derive(Clone, Copy, Debug, PartialEq, Eq, Structural)]
pub enum SwapFailure {
    /// The installed file could not be moved aside. It is still in place.
    TargetNotMovedAside,
    /// The staged file could not be moved into place.
    ReplacementNotMovedIn,
}

/// How far a replacement has come.
#[derive(Clone, Copy, Debug, PartialEq, Eq, Structural)]
pub enum SwapState {
    /// A backup left by an earlier replacement is to be deleted.
    ClearingBackup,
    /// It is to be found out whether the installed file exists.
    ProbingTarget,
    /// The installed file is to be moved to the backup.
    MovingTargetAside,
    /// The staged file is to be moved to the installed file's place.
    MovingReplacementIn,
    /// The staged file is in place.
    Swapped,
    /// The replacement was given up.
    Failed(SwapFailure),
}

/// A file operation for the caller to perform.
#[derive(Clone, Copy, Debug, PartialEq, Eq, Structural)]
pub enum FileAction {
    /// Delete the backup. It may fail, and it may find nothing to delete.
    RemoveBackup,
    /// Report whether the installed file exists.
    ProbeTarget,
    /// Rename the installed file to the backup.
    MoveTargetToBackup,
    /// Rename the staged file to the installed file.
    MoveReplacementToTarget,
}

/// The operation a state waits for; none once the replacement has ended.
pub open spec fn action_of(state: SwapState) -> Option<FileAction> {
    match state {
        SwapState::ClearingBackup => Some(FileAction::RemoveBackup),
        SwapState::ProbingTarget => Some(FileAction::ProbeTarget),
        SwapState::MovingTargetAside => Some(FileAction::MoveTargetToBackup),
        SwapState::MovingReplacementIn => Some(FileAction::MoveReplacementToTarget),
        SwapState::Swapped => None,
        SwapState::Failed(_) => None,
    }
}

/// The state that follows once the awaited operation has been performed.
/// `outcome` says whether it succeeded; for the probe, whether the
/// installed file exists. Deleting the backup may fail without harm. A file
/// that does not exist is not moved aside. A failed rename ends the
/// replacement.
pub open spec fn next_state(state: SwapState, outcome: bool) -> SwapState {
    match state {
        SwapState::ClearingBackup => SwapState::ProbingTarget,
        SwapState::ProbingTarget => if outcome {
            SwapState::MovingTargetAside
        } else {
            SwapState::MovingReplacementIn
        },
        SwapState::MovingTargetAside => if outcome {
            SwapState::MovingReplacementIn
        } else {
            SwapState::Failed(SwapFailure::TargetNotMovedAside)
        },
        SwapState::MovingReplacementIn => if outcome {
            SwapState::Swapped
        } else {
            SwapState::Failed(SwapFailure::ReplacementNotMovedIn)
        },
        SwapState::Swapped => SwapState::Swapped,
        SwapState::Failed(failure) => SwapState::Failed(failure),
    }
}

/// File name of the backup of an installed file: the file's own name with
/// `.old` behind it. A file whose name cannot be had is backed up as
/// `app.old`.
pub open spec fn backup_name(file_name: Option<Seq<char>>) -> Seq<char> {
    (match file_name {
        Some(name) => name,
        None => "app"@,
    }) + ".old"@
}

/// File name of the backup of an installed file.
pub fn backup_file_name(file_name: Option<&str>) -> (r: String)
    ensures
        r@ == backup_name(
            match file_name {
                Some(name) => Some(name@),
                None => None,
            },
        ),
{
    let mut r = match file_name {
        Some(name) => name.to_owned(),
        None => "app".to_owned(),
    };
    r.append(".old");
    r
}

impl SwapState {
    /// The state a replacement starts in.
    pub fn start() -> (r: SwapState)
        ensures
            r == SwapState::ClearingBackup,
    {
        SwapState::ClearingBackup
    }

    /// The operation to perform now, or `None` when the replacement has
    /// ended.
    pub fn action(&self) -> (r: Option<FileAction>)
        ensures
            r == action_of(*self),
    {
        match self {
            SwapState::ClearingBackup => Some(FileAction::RemoveBackup),
            SwapState::ProbingTarget => Some(FileAction::ProbeTarget),
            SwapState::MovingTargetAside => Some(FileAction::MoveTargetToBackup),
            SwapState::MovingReplacementIn => Some(FileAction::MoveReplacementToTarget),
            SwapState::Swapped => None,
            SwapState::Failed(_) => None,
        }
    }

    /// The state after the operation asked for has been performed.
    pub fn advance(self, outcome: bool) -> (r: SwapState)
        ensures
            r == next_state(self, outcome),
    {
        match self {
            SwapState::ClearingBackup => SwapState::ProbingTarget,
            SwapState::ProbingTarget => if outcome {
                SwapState::MovingTargetAside
            } else {
                SwapState::MovingReplacementIn
            },
            SwapState::MovingTargetAside => if outcome {
                SwapState::MovingReplacementIn
            } else {
                SwapState::Failed(SwapFailure::TargetNotMovedAside)
            },
            SwapState::MovingReplacementIn => if outcome {
                SwapState::Swapped
            } else {
                SwapState::Failed(SwapFailure::ReplacementNotMovedIn)
            },
            SwapState::Swapped => SwapState::Swapped,
            SwapState::Failed(failure) => SwapState::Failed(failure),
        }
    }

    /// Whether the staged file is in place.
    pub fn is_swapped(&self) -> (r: bool)
        ensures
            r == (*self == SwapState::Swapped),
    {
        match self {
            SwapState::Swapped => true,
            _ => false,
        }
    }
}

/// The three files of a replacement, each with its contents if it exists.
pub struct Installation {
    pub target: Option<Seq<u8>>,
    pub backup: Option<Seq<u8>>,
    pub replacement: Option<Seq<u8>>,
}

/// What the system lets happen during one replacement. A file that another
/// process still holds cannot be moved.
pub struct Conditions {
    pub backup_removable: bool,
    pub target_movable: bool,
    pub replacement_movable: bool,
}

/// Whether an operation succeeds on an installation under the given
/// conditions. A rename needs its source to exist; the probe reports the
/// truth.
pub open spec fn outcome_of(files: Installation, conditions: Conditions, action: FileAction) -> bool {
    match action {
        FileAction::RemoveBackup => conditions.backup_removable && files.backup is Some,
        FileAction::ProbeTarget => files.target is Some,
        FileAction::MoveTargetToBackup => conditions.target_movable && files.target is Some,
        FileAction::MoveReplacementToTarget => conditions.replacement_movable
            && files.replacement is Some,
    }
}

/// The installation after an operation. A failed operation changes nothing;
/// a rename takes its source away and overwrites its destination.
pub open spec fn effect_of(files: Installation, conditions: Conditions, action: FileAction) -> Installation {
    if !outcome_of(files, conditions, action) {
        files
    } else {
        match action {
            FileAction::RemoveBackup => Installation { backup: None, ..files },
            FileAction::ProbeTarget => files,
            FileAction::MoveTargetToBackup => Installation {
                target: None,
                backup: files.target,
                ..files
            },
            FileAction::MoveReplacementToTarget => Installation {
                target: files.replacement,
                replacement: None,
                ..files
            },
        }
    }
}

/// Drives a replacement from `state` for at most `steps` operations.
pub open spec fn drive(state: SwapState, files: Installation, conditions: Conditions, steps: nat) -> (
    SwapState,
    Installation,
)
    decreases steps,
{
    match action_of(state) {
        Some(action) if steps > 0 => drive(
            next_state(state, outcome_of(files, conditions, action)),
            effect_of(files, conditions, action),
            conditions,
            (steps - 1) as nat,
        ),
        _ => (state, files),
    }
}

/// One whole replacement: how it ends, and the installation it leaves.
pub open spec fn swap(files: Installation, conditions: Conditions) -> (SwapState, Installation) {
    drive(SwapState::ClearingBackup, files, conditions, 4)
}

/// A replacement ends within four operations.
pub proof fn swap_ends(files: Installation, conditions: Conditions)
    ensures
        action_of(swap(files, conditions).0) is None,
{
    reveal_with_fuel(drive, 5);
}

/// A replacement succeeds exactly when the staged file exists and can be
/// moved, and the installed file, if there is one, can be moved too. The
/// staged contents are then installed and the former contents, if any, are
/// the backup.
pub proof fn swap_succeeds(files: Installation, conditions: Conditions)
    ensures
        swap(files, conditions).0 == SwapState::Swapped <==> (files.replacement is Some
            && conditions.replacement_movable && (files.target is Some
            ==> conditions.target_movable)),
        swap(files, conditions).0 == SwapState::Swapped ==> {
            &&& swap(files, conditions).1.target == files.replacement
            &&& files.target is Some ==> swap(files, conditions).1.backup == files.target
        },
{
    reveal_with_fuel(drive, 5);
}

/// While the installed file cannot be moved, a replacement fails and leaves
/// it as it is, however often it is tried: nothing is taken away where
/// nothing can be put in its place.
pub proof fn swap_keeps_held_target(files: Installation, conditions: Conditions)
    requires
        files.target is Some,
        !conditions.target_movable,
    ensures
        swap(files, conditions).0 == SwapState::Failed(SwapFailure::TargetNotMovedAside),
        swap(files, conditions).1.target == files.target,
        swap(files, conditions).1.replacement == files.replacement,
{
    reveal_with_fuel(drive, 5);
}

/// The installed file is lost in one case only: it was moved aside and the
/// staged file then failed to land. Its contents are the backup then.
pub proof fn swap_loses_target_only_to_backup(files: Installation, conditions: Conditions)
    requires
        files.target is Some,
    ensures
        swap(files, conditions).1.target is None ==> {
            &&& swap(files, conditions).0 == SwapState::Failed(SwapFailure::ReplacementNotMovedIn)
            &&& swap(files, conditions).1.backup == files.target
        },
{
    reveal_with_fuel(drive, 5);
}

/// Replacing a file by contents it already has changes nothing for the
/// installation: after a replacement that ends well, and after one that the
/// installed file being held has stopped, the installed contents are what
/// they were.
pub proof fn swap_again_is_harmless(files: Installation, conditions: Conditions)
    requires
        files.target is Some,
        files.replacement == files.target,
    ensures
        swap(files, conditions).0 == SwapState::Swapped || !conditions.target_movable
            ==> swap(files, conditions).1.target == files.target,
{
    reveal_with_fuel(drive, 5);
}

} // verus!
