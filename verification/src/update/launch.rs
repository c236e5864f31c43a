//! What a starting process is: the application itself, or the helper that
//! applies a downloaded update. Decided once, from the process arguments.
use vstd::prelude::*;
use crate::text::{
    copy_from, first_position, lemma_first_position, lemma_first_position_is_first, position_of,
    str_eq, texts,
};

verus! {

/// Marks a process as the update helper; the bundle's path follows it.
pub const ARG_APPLY_UPDATE: &'static str = "--apply-update";

/// Precedes the path of the executable that the helper replaces.
pub const ARG_TARGET_EXE: &'static str = "--target-exe";

/// Makes the application start without looking for an update, once.
pub const ARG_SKIP_UPDATE: &'static str = "--skip-update";

/// Precedes the arguments that the helper hands on when it starts the
/// updated application.
pub const ARG_RELAUNCH_SEP: &'static str = "--";

/// Name of the environment variable that switches updates off.
pub const DISABLE_VARIABLE: &'static str = "TWITCHDESK_DISABLE_UPDATES";

/// The value of that variable that switches updates off.
pub const DISABLE_VALUE: &'static str = "1";

/// The helper marker as a text.
pub open spec fn apply_marker() -> Seq<char> {
    ARG_APPLY_UPDATE@
}

/// The target marker as a text.
pub open spec fn target_marker() -> Seq<char> {
    ARG_TARGET_EXE@
}

/// The skip marker as a text.
pub open spec fn skip_marker() -> Seq<char> {
    ARG_SKIP_UPDATE@
}

/// The separator as a text.
pub open spec fn relaunch_separator() -> Seq<char> {
    ARG_RELAUNCH_SEP@
}

/// The value that switches updates off, as a text.
pub open spec fn disabled_value() -> Seq<char> {
    DISABLE_VALUE@
}

/// What the update helper was asked to do.
#[derive(Debug)]
pub struct ApplyInvocation {
    pub downloaded_bundle_path: String,
    pub target_exe_path: String,
    pub relaunch_args: Vec<String>,
}

/// The mathematical content of an [`ApplyInvocation`].
pub struct ApplyInvocationModel {
    pub downloaded_bundle_path: Seq<char>,
    pub target_exe_path: Seq<char>,
    pub relaunch_args: Seq<Seq<char>>,
}

impl View for ApplyInvocation {
    type V = ApplyInvocationModel;

    open spec fn view(&self) -> ApplyInvocationModel {
        ApplyInvocationModel {
            downloaded_bundle_path: self.downloaded_bundle_path@,
            target_exe_path: self.target_exe_path@,
            relaunch_args: texts(self.relaunch_args@),
        }
    }
}

/// The role of a starting process.
#[derive(Debug)]
pub enum LaunchMode {
    /// The update helper: apply the bundle, then start the application.
    ApplyUpdate(ApplyInvocation),
    /// The application, which looks for an update before it starts.
    CheckForUpdate,
    /// The application, which starts without looking for an update.
    NormalStartup,
}

/// The mathematical content of a [`LaunchMode`].
pub enum LaunchModeModel {
    ApplyUpdate(ApplyInvocationModel),
    CheckForUpdate,
    NormalStartup,
}

impl View for LaunchMode {
    type V = LaunchModeModel;

    open spec fn view(&self) -> LaunchModeModel {
        match self {
            LaunchMode::ApplyUpdate(invocation) => LaunchModeModel::ApplyUpdate(invocation@),
            LaunchMode::CheckForUpdate => LaunchModeModel::CheckForUpdate,
            LaunchMode::NormalStartup => LaunchModeModel::NormalStartup,
        }
    }
}

/// Why the arguments of an update helper make no sense.
#[derive(Clone, Copy, Debug, PartialEq, Eq, Structural)]
pub enum LaunchError {
    /// Nothing follows the helper marker.
    MissingBundlePath,
    /// Nothing follows the target marker.
    MissingTargetPath,
    /// No target is named and the helper's own path is unknown.
    NoCurrentExecutable,
}

/// What is known of the process besides its arguments.
#[derive(Clone, Copy, Debug)]
pub struct UpdateGate<'a> {
    /// The build is a development build.
    pub debug_build: bool,
    /// Value of the environment toggle that switches updates off, if set.
    pub disable_toggle: Option<&'a str>,
    /// Path of the running executable, if it could be found.
    pub current_exe: Option<&'a str>,
}

impl<'a> UpdateGate<'a> {
    /// Whether the environment toggle switches updates off.
    pub open spec fn disabled(&self) -> bool {
        self.disable_toggle matches Some(v) && v@ == disabled_value()
    }

    /// The path of the running executable, as a text.
    pub open spec fn own_path(&self) -> Option<Seq<char>> {
        match self.current_exe {
            Some(p) => Some(p@),
            None => None,
        }
    }
}

/// Reads the helper's arguments: the bundle's path follows the first helper
/// marker; the target's path follows the first target marker and defaults
/// to the helper's own path where no marker or an empty path is given; what
/// follows the first separator is handed on.
pub open spec fn apply_invocation(args: Seq<Seq<char>>, own_path: Option<Seq<char>>) -> Result<
    ApplyInvocationModel,
    LaunchError,
> {
    let at = first_position(args, apply_marker());
    let target_at = first_position(args, target_marker());
    let separator_at = first_position(args, relaunch_separator());
    let named = if target_at < args.len() && target_at + 1 < args.len() {
        args[target_at + 1]
    } else {
        Seq::<char>::empty()
    };
    if at + 1 >= args.len() {
        Err(LaunchError::MissingBundlePath)
    } else if target_at < args.len() && target_at + 1 >= args.len() {
        Err(LaunchError::MissingTargetPath)
    } else if named.len() == 0 && own_path is None {
        Err(LaunchError::NoCurrentExecutable)
    } else {
        Ok(
            ApplyInvocationModel {
                downloaded_bundle_path: args[at + 1],
                target_exe_path: if named.len() == 0 {
                    own_path->0
                } else {
                    named
                },
                relaunch_args: if separator_at < args.len() {
                    args.skip(separator_at + 1)
                } else {
                    Seq::<Seq<char>>::empty()
                },
            },
        )
    }
}

/// The role of a process: the update helper wherever the helper marker is
/// among the arguments; else the application, which looks for an update
/// unless the build is a development build, the environment switches
/// updates off or the skip marker is among the arguments.
pub open spec fn launch_mode(args: Seq<Seq<char>>, debug_build: bool, disabled: bool, own_path: Option<
    Seq<char>,
>) -> Result<LaunchModeModel, LaunchError> {
    if first_position(args, apply_marker()) < args.len() {
        match apply_invocation(args, own_path) {
            Ok(invocation) => Ok(LaunchModeModel::ApplyUpdate(invocation)),
            Err(e) => Err(e),
        }
    } else if debug_build || disabled || first_position(args, skip_marker()) < args.len() {
        Ok(LaunchModeModel::NormalStartup)
    } else {
        Ok(LaunchModeModel::CheckForUpdate)
    }
}

/// The arguments the application gives the helper: the bundle, the
/// executable to replace, and behind the separator the application's own
/// arguments without the program name, followed by the skip marker.
pub open spec fn helper_arguments(
    bundle: Seq<char>,
    target: Seq<char>,
    started_with: Seq<Seq<char>>,
) -> Seq<Seq<char>> {
    seq![apply_marker(), bundle, target_marker(), target, relaunch_separator()] + relaunch_arguments(
        started_with,
    )
}

/// The arguments the updated application is started with: those this
/// process was started with, without the program name, then the skip
/// marker.
pub open spec fn relaunch_arguments(started_with: Seq<Seq<char>>) -> Seq<Seq<char>> {
    (if started_with.len() > 0 {
        started_with.skip(1)
    } else {
        started_with
    }).push(skip_marker())
}

/// Reads the helper's arguments, the helper marker standing at `at`.
fn read_apply_invocation(args: &Vec<String>, at: usize, own_path: Option<&str>) -> (r: Result<
    ApplyInvocation,
    LaunchError,
>)
    requires
        at == first_position(texts(args@), apply_marker()),
        at < args.len(),
    ensures
        match r {
            Ok(invocation) => apply_invocation(
                texts(args@),
                match own_path {
                    Some(p) => Some(p@),
                    None => None,
                },
            ) == Ok::<ApplyInvocationModel, LaunchError>(invocation@),
            Err(e) => apply_invocation(
                texts(args@),
                match own_path {
                    Some(p) => Some(p@),
                    None => None,
                },
            ) == Err::<ApplyInvocationModel, LaunchError>(e),
        },
{
    let n = args.len();
    if at + 1 >= n {
        return Err(LaunchError::MissingBundlePath);
    }
    let target_at = position_of(args, ARG_TARGET_EXE);
    if target_at < n && target_at + 1 >= n {
        return Err(LaunchError::MissingTargetPath);
    }
    let named: Option<&String> = if target_at < n {
        Some(&args[target_at + 1])
    } else {
        None
    };
    let target_exe_path = match named {
        Some(p) if p.as_str().unicode_len() > 0 => p.clone(),
        _ => match own_path {
            Some(own) => own.to_owned(),
            None => {
                return Err(LaunchError::NoCurrentExecutable);
            },
        },
    };
    let separator_at = position_of(args, ARG_RELAUNCH_SEP);
    let relaunch_args = if separator_at < n {
        copy_from(args, separator_at + 1)
    } else {
        Vec::new()
    };
    let invocation = ApplyInvocation {
        downloaded_bundle_path: args[at + 1].clone(),
        target_exe_path,
        relaunch_args,
    };
    proof {
        assert(texts(Seq::<String>::empty()) =~= Seq::<Seq<char>>::empty());
    }
    Ok(invocation)
}

/// Decides the role of the starting process from its arguments, the program
/// name first.
pub fn decide_launch_mode(args: &Vec<String>, gate: UpdateGate<'_>) -> (r: Result<
    LaunchMode,
    LaunchError,
>)
    ensures
        match r {
            Ok(mode) => launch_mode(texts(args@), gate.debug_build, gate.disabled(), gate.own_path())
                == Ok::<LaunchModeModel, LaunchError>(mode@),
            Err(e) => launch_mode(texts(args@), gate.debug_build, gate.disabled(), gate.own_path())
                == Err::<LaunchModeModel, LaunchError>(e),
        },
{
    let at = position_of(args, ARG_APPLY_UPDATE);
    if at < args.len() {
        return match read_apply_invocation(args, at, gate.current_exe) {
            Ok(invocation) => Ok(LaunchMode::ApplyUpdate(invocation)),
            Err(e) => Err(e),
        };
    }
    let disabled = match gate.disable_toggle {
        Some(v) => str_eq(v, DISABLE_VALUE),
        None => false,
    };
    if gate.debug_build || disabled || position_of(args, ARG_SKIP_UPDATE) < args.len() {
        Ok(LaunchMode::NormalStartup)
    } else {
        Ok(LaunchMode::CheckForUpdate)
    }
}

/// The arguments for the helper that is to replace `target` by the contents
/// of `bundle` and then start it as this process was started.
pub fn helper_command_line(bundle: &str, target: &str, started_with: &Vec<String>) -> (r: Vec<String>)
    ensures
        texts(r@) == helper_arguments(bundle@, target@, texts(started_with@)),
{
    let mut r: Vec<String> = Vec::new();
    r.push(ARG_APPLY_UPDATE.to_owned());
    r.push(bundle.to_owned());
    r.push(ARG_TARGET_EXE.to_owned());
    r.push(target.to_owned());
    r.push(ARG_RELAUNCH_SEP.to_owned());
    let n = started_with.len();
    let mut i: usize = 1;
    while i < n
        invariant
            1 <= i,
            n == started_with.len(),
            i <= n || (n == 0 && i == 1),
            r@.len() == 5 + i - 1,
            forall|j: int| 5 <= j < r@.len() ==> r@[j]@ == started_with@[j - 4]@,
            r@[0]@ == apply_marker(),
            r@[1]@ == bundle@,
            r@[2]@ == target_marker(),
            r@[3]@ == target@,
            r@[4]@ == relaunch_separator(),
        decreases n - i,
    {
        let item = started_with[i].clone();
        r.push(item);
        i = i + 1;
    }
    r.push(ARG_SKIP_UPDATE.to_owned());
    proof {
        let got = texts(r@);
        let tail = relaunch_arguments(texts(started_with@));
        let want = helper_arguments(bundle@, target@, texts(started_with@));
        assert(texts(started_with@).len() == n);
        assert(tail.len() == if n > 0 {
            n as int
        } else {
            1
        });
        assert(want.len() == 5 + tail.len());
        assert(r@.len() == want.len());
        assert forall|j: int| 0 <= j < want.len() implies got[j] == want[j] by {
            if j >= 5 {
                assert(want[j] == tail[j - 5]);
                if j < want.len() - 1 {
                    assert(tail[j - 5] == texts(started_with@)[j - 4]);
                }
            }
        }
        assert(got =~= want);
    }
    r
}

/// A helper that is started with the arguments made for it reads back the
/// bundle, the target and the arguments to hand on, the latter complete and
/// in their order, provided none of the three paths is itself one of the
/// markers and the target's path is not empty.
pub proof fn helper_reads_back_its_arguments(
    helper: Seq<char>,
    bundle: Seq<char>,
    target: Seq<char>,
    started_with: Seq<Seq<char>>,
    own_path: Option<Seq<char>>,
)
    requires
        helper != apply_marker() && helper != target_marker() && helper != relaunch_separator(),
        bundle != target_marker() && bundle != relaunch_separator(),
        target != relaunch_separator() && target.len() > 0,
    ensures
        apply_invocation(seq![helper] + helper_arguments(bundle, target, started_with), own_path) == Ok::<
            ApplyInvocationModel,
            LaunchError,
        >(
            ApplyInvocationModel {
                downloaded_bundle_path: bundle,
                target_exe_path: target,
                relaunch_args: relaunch_arguments(started_with),
            },
        ),
{
    reveal_strlit("--apply-update");
    reveal_strlit("--target-exe");
    reveal_strlit("--");
    let args = seq![helper] + helper_arguments(bundle, target, started_with);
    assert(apply_marker() != target_marker()) by {
        assert(apply_marker()[2] != target_marker()[2]);
    }
    assert(apply_marker() != relaunch_separator()) by {
        assert(apply_marker().len() != relaunch_separator().len());
    }
    assert(target_marker() != relaunch_separator()) by {
        assert(target_marker().len() != relaunch_separator().len());
    }
    assert(args[0] == helper);
    assert(args[1] == apply_marker());
    assert(args[2] == bundle);
    assert(args[3] == target_marker());
    assert(args[4] == target);
    assert(args[5] == relaunch_separator());
    lemma_first_position(args, apply_marker(), 1);
    lemma_first_position(args, target_marker(), 3);
    lemma_first_position(args, relaunch_separator(), 5);
    assert(args.skip(6) =~= relaunch_arguments(started_with));
}

/// The application that the helper starts does not look for an update
/// again: its arguments end in the skip marker, and they hold the helper
/// marker only if the application's own arguments did.
pub proof fn relaunched_application_skips_the_update(
    target: Seq<char>,
    started_with: Seq<Seq<char>>,
    debug_build: bool,
    disabled: bool,
    own_path: Option<Seq<char>>,
)
    requires
        target != apply_marker(),
        forall|j: int| 1 <= j < started_with.len() ==> started_with[j] != apply_marker(),
    ensures
        launch_mode(seq![target] + relaunch_arguments(started_with), debug_build, disabled, own_path)
            == Ok::<LaunchModeModel, LaunchError>(LaunchModeModel::NormalStartup),
{
    reveal_strlit("--apply-update");
    reveal_strlit("--skip-update");
    let args = seq![target] + relaunch_arguments(started_with);
    assert(skip_marker() != apply_marker()) by {
        assert(apply_marker()[2] != skip_marker()[2]);
    }
    assert forall|j: int| 0 <= j < args.len() implies args[j] != apply_marker() by {
        if j == 0 {
        } else if j == args.len() - 1 {
            assert(args[j] == skip_marker());
        } else {
            assert(args[j] == started_with[j]);
        }
    }
    lemma_first_position(args, apply_marker(), args.len() as int);
    lemma_first_position_is_first(args, skip_marker());
    assert(args[args.len() - 1] == skip_marker());
}

} // verus!
