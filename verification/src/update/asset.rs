//! Names of the release bundle and of the executables, by platform.
use vstd::prelude::*;
use crate::text::str_eq;

verus! {

/// The bundle published for an operating system and a CPU architecture:
/// an archive whose name holds both identifiers as they are given.
pub open spec fn asset_name(os: Seq<char>, arch: Seq<char>) -> Seq<char> {
    "twitchdesk-desktop-"@ + os + "-"@ + arch + ".zip"@
}

/// An executable's file name on an operating system: the stem, with `.exe`
/// behind it on Windows.
pub open spec fn executable_name(stem: Seq<char>, os: Seq<char>) -> Seq<char> {
    if os == "windows"@ {
        stem + ".exe"@
    } else {
        stem
    }
}

/// File name of the application's main executable.
pub open spec fn main_name(os: Seq<char>) -> Seq<char> {
    executable_name("twitchdesk-desktop"@, os)
}

/// File name of the preview renderer's executable.
pub open spec fn preview_name(os: Seq<char>) -> Seq<char> {
    executable_name("twitchdesk-preview"@, os)
}

/// File name of the copy of the application that applies an update.
pub open spec fn helper_name(os: Seq<char>) -> Seq<char> {
    executable_name("twitchdesk-desktop-updater"@, os)
}

/// Name of the release bundle for this platform. Identifiers the project
/// publishes nothing for still give a name, which no release then holds.
pub fn expected_bundle_asset_name(os: &str, arch: &str) -> (r: String)
    ensures
        r@ == asset_name(os@, arch@),
{
    let mut r = "twitchdesk-desktop-".to_owned();
    r.append(os);
    r.append("-");
    r.append(arch);
    r.append(".zip");
    r
}

/// The same platform always resolves to the same bundle name.
pub proof fn asset_name_is_deterministic(
    os_a: Seq<char>,
    arch_a: Seq<char>,
    os_b: Seq<char>,
    arch_b: Seq<char>,
)
    requires
        os_a == os_b,
        arch_a == arch_b,
    ensures
        asset_name(os_a, arch_a) == asset_name(os_b, arch_b),
{
}

/// A bundle name is an archive's name: it ends in `.zip`, and the two
/// identifiers stand in it where the definition puts them.
pub proof fn asset_name_shape(os: Seq<char>, arch: Seq<char>)
    ensures
        asset_name(os, arch).len() == 24 + os.len() + arch.len(),
        asset_name(os, arch).subrange(19, 19 + os.len() as int) == os,
        asset_name(os, arch)[19 + os.len() as int] == '-',
        asset_name(os, arch).subrange(20 + os.len() as int, 20 + os.len() as int + arch.len() as int) == arch,
        asset_name(os, arch).skip(20 + os.len() as int + arch.len() as int) == ".zip"@,
{
    reveal_strlit("twitchdesk-desktop-");
    reveal_strlit("-");
    reveal_strlit(".zip");
    let n = asset_name(os, arch);
    assert(n.subrange(19, 19 + os.len() as int) =~= os);
    assert(n.subrange(20 + os.len() as int, 20 + os.len() as int + arch.len() as int) =~= arch);
    assert(n.skip(20 + os.len() as int + arch.len() as int) =~= ".zip"@);
}

/// An executable's file name on `os`.
fn executable_file_name(stem: &str, os: &str) -> (r: String)
    ensures
        r@ == executable_name(stem@, os@),
{
    let mut r = stem.to_owned();
    if str_eq(os, "windows") {
        r.append(".exe");
    }
    r
}

/// File name of the application's main executable on `os`.
pub fn main_executable_name(os: &str) -> (r: String)
    ensures
        r@ == main_name(os@),
{
    executable_file_name("twitchdesk-desktop", os)
}

/// File name of the preview renderer's executable on `os`.
pub fn preview_executable_name(os: &str) -> (r: String)
    ensures
        r@ == preview_name(os@),
{
    executable_file_name("twitchdesk-preview", os)
}

/// File name of the update helper on `os`.
pub fn updater_helper_name(os: &str) -> (r: String)
    ensures
        r@ == helper_name(os@),
{
    executable_file_name("twitchdesk-desktop-updater", os)
}

} // verus!
