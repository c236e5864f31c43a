//! Launching the preview renderer, a separate executable that shows one page.
use vstd::prelude::*;
use crate::text::texts;
use crate::update::asset::{preview_executable_name, preview_name};

verus! {

/// Where the renderer that is to be launched lies.
#[derive(Clone, Copy, Debug, PartialEq, Eq, Structural)]
pub enum PreviewLocation {
    /// Beside the application's own executable.
    Installed,
    /// In the development build directory, `target/debug`.
    DevBuild,
}

/// A launch of the preview renderer.
#[derive(Clone, Debug)]
pub struct PreviewCommand {
    pub location: PreviewLocation,
    /// File name of the renderer's executable.
    pub executable: String,
    /// The page's address, then the extra arguments.
    pub arguments: Vec<String>,
}

/// The mathematical content of a [`PreviewCommand`].
pub struct PreviewCommandModel {
    pub location: PreviewLocation,
    pub executable: Seq<char>,
    pub arguments: Seq<Seq<char>>,
}

impl View for PreviewCommand {
    type V = PreviewCommandModel;

    open spec fn view(&self) -> PreviewCommandModel {
        PreviewCommandModel {
            location: self.location,
            executable: self.executable@,
            arguments: texts(self.arguments@),
        }
    }
}

/// Why the renderer cannot be launched.
#[derive(Clone, Copy, Debug, PartialEq, Eq, Structural)]
pub enum PreviewError {
    /// No renderer beside the application and none in the development build
    /// directory.
    HelperNotFound,
}

/// The launch that shows `arguments` on `os`: the installed renderer where
/// there is one, else the one of the development build.
pub open spec fn preview_command(
    arguments: Seq<Seq<char>>,
    os: Seq<char>,
    installed: bool,
) -> PreviewCommandModel {
    PreviewCommandModel {
        location: if installed {
            PreviewLocation::Installed
        } else {
            PreviewLocation::DevBuild
        },
        executable: preview_name(os),
        arguments,
    }
}

/// Decides how to launch the renderer on a page with extra arguments.
///
/// `installed` and `dev_build` say whether a renderer exists beside the
/// application and in the development build directory. Fails exactly when
/// neither does.
pub fn open_preview_with_args(
    url: &str,
    extra_args: &Vec<String>,
    os: &str,
    installed: bool,
    dev_build: bool,
) -> (r: Result<PreviewCommand, PreviewError>)
    ensures
        match r {
            Ok(c) => (installed || dev_build) && c@ == preview_command(
                seq![url@] + texts(extra_args@),
                os@,
                installed,
            ),
            Err(e) => !installed && !dev_build && e == PreviewError::HelperNotFound,
        },
{
    if !installed && !dev_build {
        return Err(PreviewError::HelperNotFound);
    }
    let mut arguments: Vec<String> = Vec::new();
    arguments.push(url.to_owned());
    let n = extra_args.len();
    let mut i: usize = 0;
    while i < n
        invariant
            i <= n == extra_args.len(),
            arguments@.len() == i + 1,
            texts(arguments@) == seq![url@] + texts(extra_args@).take(i as int),
        decreases n - i,
    {
        let ghost before = arguments@;
        let item = extra_args[i].clone();
        arguments.push(item);
        i = i + 1;
        proof {
            let want = seq![url@] + texts(extra_args@).take(i as int);
            assert(texts(arguments@).len() == want.len());
            assert forall|j: int| 0 <= j < want.len() implies texts(arguments@)[j] == want[j] by {
                if j < before.len() {
                    assert(texts(arguments@)[j] == texts(before)[j]);
                    assert(texts(before)[j] == (seq![url@] + texts(extra_args@).take(i - 1))[j]);
                } else {
                    assert(texts(arguments@)[j] == item@);
                }
            }
            assert(texts(arguments@) =~= want);
        }
    }
    assert(texts(extra_args@).take(n as int) =~= texts(extra_args@));
    Ok(
        PreviewCommand {
            location: if installed {
                PreviewLocation::Installed
            } else {
                PreviewLocation::DevBuild
            },
            executable: preview_executable_name(os),
            arguments,
        },
    )
}

/// Decides how to launch the renderer on a page.
pub fn open_preview(url: &str, os: &str, installed: bool, dev_build: bool) -> (r: Result<
    PreviewCommand,
    PreviewError,
>)
    ensures
        match r {
            Ok(c) => (installed || dev_build) && c@ == preview_command(seq![url@], os@, installed),
            Err(e) => !installed && !dev_build && e == PreviewError::HelperNotFound,
        },
{
    let none: Vec<String> = Vec::new();
    let r = open_preview_with_args(url, &none, os, installed, dev_build);
    proof {
        assert(seq![url@] + texts(none@) =~= seq![url@]);
    }
    r
}

} // verus!
