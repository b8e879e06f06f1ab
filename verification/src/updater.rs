//! Updates: which release to take, which file of it, and whether the download
//! is whole.

use crate::number::{decimal, format_u64};
use crate::text::{
    ascii_lowered, contains, ends_with, has_suffix, has_text, strip_prefixes, to_ascii_lower,
    without_prefixes,
};
use crate::urls::{parse_url, replace_path, url_parts, url_with_path, UrlPartsView};
use vstd::prelude::*;

verus! {

// ---------------------------------------------------------------------------
// Versions
// ---------------------------------------------------------------------------

/// The text is a semantic version.
pub uninterp spec fn is_version(text: Seq<char>) -> bool;

/// The first version comes after the second.
pub uninterp spec fn version_after(first: Seq<char>, second: Seq<char>) -> bool;

/// Calls `semver::Version::parse` on a text: whether it is a version depends on
/// the text alone.
#[verifier::external_body]
fn valid_version(text: &str) -> (valid: bool)
    ensures
        valid == is_version(text@),
{
    semver::Version::parse(text).is_ok()
}

/// Compares two versions with `semver::Version`'s order, after
/// `semver::Version::parse`. Which comes first depends on the texts alone. The
/// order is total: of two versions at most one comes after the other, and what
/// comes after the second comes after the first, unless that itself comes after
/// the second.
#[verifier::external_body]
fn newer_version(first: &str, second: &str) -> (newer: bool)
    requires
        is_version(first@),
        is_version(second@),
    ensures
        newer == version_after(first@, second@),
        newer ==> !version_after(second@, first@),
        !newer ==> (forall|other: Seq<char>|
            is_version(other) && #[trigger] version_after(other, second@) ==> version_after(
                other,
                first@,
            )),
{
    semver::Version::parse(first).ok() > semver::Version::parse(second).ok()
}

/// The version that a release's tag names.
pub open spec fn tag_version(tag: Seq<char>) -> Seq<char> {
    without_prefixes(tag, "v"@)
}

// ---------------------------------------------------------------------------
// Releases
// ---------------------------------------------------------------------------

/// A file of a release.
#[derive(Debug)]
pub struct GitHubAsset {
    pub name: String,
    pub browser_download_url: String,
}

/// A release.
#[derive(Debug)]
pub struct GitHubRelease {
    pub tag_name: String,
    pub prerelease: bool,
    pub assets: Vec<GitHubAsset>,
}

impl GitHubRelease {
    /// The version of the release.
    pub open spec fn version(&self) -> Seq<char> {
        tag_version(self.tag_name@)
    }
}

/// A downloaded update.
#[derive(Debug)]
pub struct Update {
    pub version: String,
    pub file: String,
}

/// Looks for updates of a version.
#[derive(Debug)]
pub struct Updater {
    pub current_version: String,
    pub endpoint: String,
    pub force_update: bool,
    pub include_prerelease: bool,
}

/// Where to ask for releases.
#[derive(Debug)]
pub enum ReleaseSource {
    /// One release is at the address.
    Latest(String),
    /// A list of releases is at the address.
    List(String),
}

/// The path of a list of releases, for the path of the latest one.
pub open spec fn list_path(path: Seq<char>) -> Seq<char> {
    path.take(path.len() - "/latest"@.len())
}

/// The list of releases is asked for.
pub open spec fn asks_for_list(include_prerelease: bool, parts: Option<UrlPartsView>) -> bool {
    include_prerelease && parts is Some && has_suffix(parts->0.path, "/releases/latest"@)
}

/// Why there is no update.
#[derive(Debug)]
pub enum UpdateError {
    /// The release's tag names no version.
    BadVersion,
    /// The release has no installer for this machine; with the message.
    NoInstaller(String),
}

/// What a release leads to.
#[derive(Debug)]
pub enum UpdateStep {
    /// There is nothing to do.
    Nothing,
    /// The file at this place in the release is to be installed.
    Install(usize),
}

/// The file is an installer for the machine: a program whose name tells it.
pub open spec fn is_program(name: Seq<char>, arch: Seq<char>) -> bool {
    has_suffix(ascii_lowered(name), ".exe"@) && has_text(ascii_lowered(name), arch)
}

/// The file is a setup program for the machine.
pub open spec fn is_setup(name: Seq<char>, arch: Seq<char>) -> bool {
    is_program(name, arch) && has_text(ascii_lowered(name), "setup"@)
}

/// The place is the first of a file with the property.
pub open spec fn first_setup(assets: Seq<GitHubAsset>, arch: Seq<char>, i: int) -> bool {
    &&& 0 <= i < assets.len()
    &&& is_setup(assets[i].name@, arch)
    &&& forall|j: int| 0 <= j < i ==> !is_setup((#[trigger] assets[j]).name@, arch)
}

pub open spec fn any_setup(assets: Seq<GitHubAsset>, arch: Seq<char>) -> bool {
    exists|i: int| 0 <= i < assets.len() && is_setup((#[trigger] assets[i]).name@, arch)
}

pub open spec fn first_program(assets: Seq<GitHubAsset>, arch: Seq<char>, i: int) -> bool {
    &&& 0 <= i < assets.len()
    &&& is_program(assets[i].name@, arch)
    &&& forall|j: int| 0 <= j < i ==> !is_program((#[trigger] assets[j]).name@, arch)
}

pub open spec fn any_program(assets: Seq<GitHubAsset>, arch: Seq<char>) -> bool {
    exists|i: int| 0 <= i < assets.len() && is_program((#[trigger] assets[i]).name@, arch)
}

/// The file to install: the first setup program for the machine, or else the
/// first program for it.
pub fn select_installer(assets: &Vec<GitHubAsset>, arch_suffix: &str) -> (found: Option<usize>)
    ensures
        match found {
            Some(i) => if any_setup(assets@, arch_suffix@) {
                first_setup(assets@, arch_suffix@, i as int)
            } else {
                first_program(assets@, arch_suffix@, i as int)
            },
            None => !any_program(assets@, arch_suffix@),
        },
{
    let mut program: Option<usize> = None;
    for i in 0..assets.len()
        invariant
            match program {
                Some(k) => k < i && first_program(assets@, arch_suffix@, k as int),
                None => forall|j: int|
                    0 <= j < i ==> !is_program((#[trigger] assets@[j]).name@, arch_suffix@),
            },
            forall|j: int| 0 <= j < i ==> !is_setup((#[trigger] assets@[j]).name@, arch_suffix@),
    {
        let name = to_ascii_lower(assets[i].name.as_str());
        if ends_with(name.as_str(), ".exe") && contains(name.as_str(), arch_suffix) {
            if contains(name.as_str(), "setup") {
                assert(is_setup(assets@[i as int].name@, arch_suffix@));
                return Some(i);
            }
            if program.is_none() {
                program = Some(i);
            }
        }
    }
    proof {
        if program is Some {
            assert(is_program(assets@[program->0 as int].name@, arch_suffix@));
        }
    }
    program
}

/// The release at the place is the one to take: its version is valid, and no
/// other's comes after it.
pub open spec fn is_latest(releases: Seq<GitHubRelease>, i: int) -> bool {
    &&& 0 <= i < releases.len()
    &&& is_version(releases[i].version())
    &&& forall|j: int|
        0 <= j < releases.len() && j != i && is_version((#[trigger] releases[j]).version())
            ==> !version_after(releases[j].version(), releases[i].version())
}

/// The place of the best release so far: the last of the valid ones that no
/// earlier one comes after.
pub open spec fn best_of(releases: Seq<GitHubRelease>) -> Option<int>
    decreases releases.len(),
{
    if releases.len() == 0 {
        None
    } else {
        let before = best_of(releases.drop_last());
        let last = releases.last();
        if !is_version(last.version()) {
            before
        } else {
            match before {
                Some(b) => if version_after(releases[b].version(), last.version()) {
                    Some(b)
                } else {
                    Some(releases.len() - 1)
                },
                None => Some(releases.len() - 1),
            }
        }
    }
}

/// The latest of some releases, where any has a valid version. Of several with
/// the same version the last counts.
pub fn latest_release(releases: &Vec<GitHubRelease>) -> (found: Option<usize>)
    ensures
        match found {
            Some(i) => best_of(releases@) == Some(i as int) && is_latest(releases@, i as int),
            None => best_of(releases@) is None && forall|j: int|
                0 <= j < releases@.len() ==> !is_version((#[trigger] releases@[j]).version()),
        },
{
    let mut best: Option<usize> = None;
    let mut best_version = String::new();
    for i in 0..releases.len()
        invariant
            match best {
                Some(b) => b < i && best_version@ == releases@[b as int].version() && is_version(
                    best_version@,
                ) && best_of(releases@.take(i as int)) == Some(b as int) && forall|j: int|
                    0 <= j < i && j != b && is_version((#[trigger] releases@[j]).version())
                        ==> !version_after(releases@[j].version(), best_version@),
                None => best_of(releases@.take(i as int)) is None && forall|j: int|
                    0 <= j < i ==> !is_version((#[trigger] releases@[j]).version()),
            },
    {
        let ghost seen = releases@.take(i + 1);
        assert(seen.drop_last() =~= releases@.take(i as int));
        assert(seen.last() == releases@[i as int]);
        let version = strip_prefixes(releases[i].tag_name.as_str(), "v");
        if valid_version(version.as_str()) {
            let better = match best {
                Some(b) => {
                    assert(seen[b as int] == releases@[b as int]);
                    !newer_version(best_version.as_str(), version.as_str())
                },
                None => true,
            };
            if better {
                best = Some(i);
                best_version = version;
            }
        }
    }
    assert(releases@.take(releases@.len() as int) =~= releases@);
    best
}

impl Updater {
    pub fn new(
        current_version: String,
        updater_endpoint: &str,
        force_update: bool,
        include_prerelease: bool,
    ) -> (updater: Updater)
        ensures
            updater.current_version == current_version,
            updater.endpoint@ == updater_endpoint@,
            updater.force_update == force_update,
            updater.include_prerelease == include_prerelease,
    {
        Updater {
            current_version,
            endpoint: updater_endpoint.to_string(),
            force_update,
            include_prerelease,
        }
    }

    /// Where to ask for releases: for the list of them where early ones are
    /// wanted and the address is that of the latest one.
    pub fn release_source(&self) -> (source: ReleaseSource)
        ensures
            match source {
                ReleaseSource::Latest(url) => !asks_for_list(
                    self.include_prerelease,
                    url_parts(self.endpoint@),
                ) && url@ == self.endpoint@,
                ReleaseSource::List(url) => asks_for_list(
                    self.include_prerelease,
                    url_parts(self.endpoint@),
                ) && url@ == url_with_path(
                    self.endpoint@,
                    list_path(url_parts(self.endpoint@)->0.path),
                ),
            },
    {
        if self.include_prerelease {
            match parse_url(self.endpoint.as_str()) {
                Some(parts) => {
                    if ends_with(parts.path.as_str(), "/releases/latest") {
                        let path = releases_path(parts.path.as_str());
                        match replace_path(self.endpoint.as_str(), path.as_str()) {
                            Some(url) => return ReleaseSource::List(url),
                            None => {},
                        }
                    }
                },
                None => {},
            }
        }
        ReleaseSource::Latest(self.endpoint.clone())
    }

    /// What a release leads to: nothing where it is an early one and those are
    /// not wanted, nor where it is no newer than this version and no update is
    /// forced. `arch_suffix` is how files for this machine are marked.
    pub fn judge(&self, release: &GitHubRelease, arch_suffix: &str) -> (step: Result<
        UpdateStep,
        UpdateError,
    >)
        requires
            is_version(self.current_version@),
        ensures
            judged(*self, *release, arch_suffix@, step),
    {
        let version = strip_prefixes(release.tag_name.as_str(), "v");
        if !valid_version(version.as_str()) {
            return Err(UpdateError::BadVersion);
        }
        if release.prerelease && !self.include_prerelease {
            return Ok(UpdateStep::Nothing);
        }
        if !self.force_update && !newer_version(version.as_str(), self.current_version.as_str()) {
            return Ok(UpdateStep::Nothing);
        }
        match select_installer(&release.assets, arch_suffix) {
            Some(i) => Ok(UpdateStep::Install(i)),
            None => {
                let mut message =
                    "No Windows installer asset found for architecture suffix ".to_string();
                message.append(arch_suffix);
                Err(UpdateError::NoInstaller(message))
            },
        }
    }

    /// The same, for any version of this application: one that is no version
    /// at all is answered as a bad version.
    pub fn judge_any(&self, release: &GitHubRelease, arch_suffix: &str) -> (step: Result<
        UpdateStep,
        UpdateError,
    >)
        ensures
            is_version(self.current_version@) ==> judged(*self, *release, arch_suffix@, step),
            !is_version(self.current_version@) ==> step == Err::<UpdateStep, UpdateError>(
                UpdateError::BadVersion,
            ),
    {
        if !valid_version(self.current_version.as_str()) {
            return Err(UpdateError::BadVersion);
        }
        self.judge(release, arch_suffix)
    }
}

/// A release is to be left alone: it is an early one that is not wanted, or no
/// newer than the version, unless an update is forced.
pub open spec fn left_alone(updater: Updater, release: GitHubRelease) -> bool {
    ||| release.prerelease && !updater.include_prerelease
    ||| !updater.force_update && !version_after(release.version(), updater.current_version@)
}

/// What a release leads to.
pub open spec fn judged(
    updater: Updater,
    release: GitHubRelease,
    arch: Seq<char>,
    step: Result<UpdateStep, UpdateError>,
) -> bool {
    if !is_version(release.version()) {
        step == Err::<UpdateStep, UpdateError>(UpdateError::BadVersion)
    } else if left_alone(updater, release) {
        step == Ok::<UpdateStep, UpdateError>(UpdateStep::Nothing)
    } else if any_program(release.assets@, arch) {
        &&& step is Ok && step->Ok_0 is Install
        &&& if any_setup(release.assets@, arch) {
            first_setup(release.assets@, arch, step->Ok_0->Install_0 as int)
        } else {
            first_program(release.assets@, arch, step->Ok_0->Install_0 as int)
        }
    } else {
        &&& step is Err && step->Err_0 is NoInstaller
        &&& step->Err_0->NoInstaller_0@
            == "No Windows installer asset found for architecture suffix "@ + arch
    }
}

fn releases_path(path: &str) -> (list: String)
    requires
        has_suffix(path@, "/releases/latest"@),
    ensures
        list@ == list_path(path@),
{
    proof {
        reveal_strlit("/releases/latest");
        reveal_strlit("/latest");
    }
    let chars = crate::text::chars_of(path);
    let latest = crate::text::chars_of("/latest");
    let list = crate::text::text_of(&chars, 0, chars.len() - latest.len());
    assert(list@ =~= list_path(path@));
    list
}

/// How files for a machine are marked.
pub fn target_arch_suffix(arm: bool) -> (suffix: String)
    ensures
        suffix@ == if arm {
            "_arm64"@
        } else {
            "_x64"@
        },
{
    if arm {
        "_arm64".to_string()
    } else {
        "_x64".to_string()
    }
}

/// What is wrong with a download, if anything is: it is empty, or not as long
/// as was announced.
pub open spec fn download_fault(downloaded: u64, size: Option<u64>) -> Option<Seq<char>> {
    if downloaded == 0 {
        Some("Installer download was empty"@)
    } else {
        match size {
            Some(size) => if downloaded != size {
                Some(
                    "Incomplete installer download: expected "@ + decimal(size as nat)
                        + " bytes, received "@ + decimal(downloaded as nat),
                )
            } else {
                None
            },
            None => None,
        }
    }
}

pub fn check_download(downloaded: u64, size: Option<u64>) -> (whole: Result<(), String>)
    ensures
        match whole {
            Ok(()) => download_fault(downloaded, size) is None,
            Err(e) => download_fault(downloaded, size) == Some(e@),
        },
{
    if downloaded == 0 {
        return Err("Installer download was empty".to_string());
    }
    match size {
        Some(size) => {
            if downloaded != size {
                let mut message = "Incomplete installer download: expected ".to_string();
                message.append(format_u64(size).as_str());
                message.append(" bytes, received ");
                message.append(format_u64(downloaded).as_str());
                return Err(message);
            }
        },
        None => {},
    }
    Ok(())
}

/// The update that a download of a release's file gives, where it is whole.
pub fn downloaded_update(
    release: &GitHubRelease,
    file: String,
    downloaded: u64,
    size: Option<u64>,
) -> (update: Result<Update, String>)
    ensures
        match update {
            Ok(u) => download_fault(downloaded, size) is None && u.version@ == release.version()
                && u.file@ == file@,
            Err(e) => download_fault(downloaded, size) == Some(e@),
        },
{
    match check_download(downloaded, size) {
        Ok(()) => Ok(Update { version: strip_prefixes(release.tag_name.as_str(), "v"), file }),
        Err(e) => Err(e),
    }
}

// ---------------------------------------------------------------------------
// Laws
// ---------------------------------------------------------------------------

/// Without force, only a newer version is installed, and never an early one
/// that is not wanted.
pub proof fn only_newer_versions_are_installed(
    updater: Updater,
    release: GitHubRelease,
    arch: Seq<char>,
    step: Result<UpdateStep, UpdateError>,
)
    requires
        judged(updater, release, arch, step),
        step is Ok,
        step->Ok_0 is Install,
    ensures
        is_version(release.version()),
        !updater.force_update ==> version_after(release.version(), updater.current_version@),
        release.prerelease ==> updater.include_prerelease,
        0 <= step->Ok_0->Install_0 < release.assets@.len(),
        is_program(release.assets@[step->Ok_0->Install_0 as int].name@, arch),
{
}

/// A download is taken only when it is as long as was announced, and not empty.
pub proof fn only_whole_downloads_are_taken(downloaded: u64, size: Option<u64>)
    ensures
        download_fault(downloaded, size) is None <==> downloaded > 0 && (size is Some ==> size
            == Some(downloaded)),
{
}

/// The name is that of a program: in whatever case, it ends in `.exe` and holds
/// the mark of the machine.
pub open spec fn names_a_program(name: Seq<char>, arch: Seq<char>) -> bool {
    has_suffix(ascii_lowered(name), ".exe"@) && has_text(ascii_lowered(name), arch)
}

/// A wanted release is installed: where its version is valid and newer, or an
/// update is forced, and it is no early one or early ones are wanted, one of its
/// programs for the machine is taken, a setup program where there is one.
pub proof fn wanted_releases_are_installed(
    updater: Updater,
    release: GitHubRelease,
    arch: Seq<char>,
    step: Result<UpdateStep, UpdateError>,
    i: int,
)
    requires
        judged(updater, release, arch, step),
        is_version(release.version()),
        updater.force_update || version_after(release.version(), updater.current_version@),
        !release.prerelease || updater.include_prerelease,
        0 <= i < release.assets@.len(),
        names_a_program(release.assets@[i].name@, arch),
    ensures
        step is Ok,
        step->Ok_0 matches UpdateStep::Install(k) && {
            &&& k < release.assets@.len()
            &&& names_a_program(release.assets@[k as int].name@, arch)
            &&& has_text(ascii_lowered(release.assets@[i].name@), "setup"@) ==> has_text(
                ascii_lowered(release.assets@[k as int].name@),
                "setup"@,
            )
            &&& has_text(ascii_lowered(release.assets@[i].name@), "setup"@) ==> k <= i
        },
{
    assert(is_program(release.assets@[i].name@, arch));
    if is_setup(release.assets@[i].name@, arch) {
        assert(any_setup(release.assets@, arch));
    }
}

/// Nothing happens where nothing should: an early release that is not wanted,
/// or one that is no newer while no update is forced. A tag that names no
/// version is an error, and so is a wanted release without a program.
pub proof fn unwanted_releases_are_left_alone(
    updater: Updater,
    release: GitHubRelease,
    arch: Seq<char>,
    step: Result<UpdateStep, UpdateError>,
)
    requires
        judged(updater, release, arch, step),
    ensures
        !is_version(release.version()) <==> step == Err::<UpdateStep, UpdateError>(
            UpdateError::BadVersion,
        ),
        is_version(release.version()) && release.prerelease && !updater.include_prerelease ==> step
            == Ok::<UpdateStep, UpdateError>(UpdateStep::Nothing),
        is_version(release.version()) && !updater.force_update && !version_after(
            release.version(),
            updater.current_version@,
        ) ==> step == Ok::<UpdateStep, UpdateError>(UpdateStep::Nothing),
        step == Ok::<UpdateStep, UpdateError>(UpdateStep::Nothing) ==> (release.prerelease
            && !updater.include_prerelease) || (!updater.force_update && !version_after(
            release.version(),
            updater.current_version@,
        )),
        is_version(release.version()) && (updater.force_update || version_after(
            release.version(),
            updater.current_version@,
        )) && (!release.prerelease || updater.include_prerelease) && (forall|i: int|
            0 <= i < release.assets@.len() ==> !names_a_program(
                (#[trigger] release.assets@[i]).name@,
                arch,
            )) ==> step is Err && step->Err_0 is NoInstaller,
{
}

/// A tag names its version with or without a `v` before it.
pub proof fn tags_name_their_versions(version: Seq<char>)
    requires
        version.len() > 0,
        version[0] != 'v',
    ensures
        tag_version(version) == version,
        tag_version(seq!['v'] + version) == version,
{
    reveal_strlit("v");
    let v = "v"@;
    assert(v =~= seq!['v']);
    let tag = seq!['v'] + version;
    assert(!crate::text::has_prefix(version, v)) by {
        if crate::text::has_prefix(version, v) {
            assert(version.subrange(0, 1)[0] == version[0]);
        }
    }
    assert(tag.subrange(0, 1) =~= v);
    assert(crate::text::has_prefix(tag, v));
    assert(tag.skip(1) =~= version);
    reveal_with_fuel(without_prefixes, 3);
}

/// Early releases are found in the list of all, whose address is that of the
/// latest one without its last part; otherwise the address is asked as it is.
pub proof fn early_releases_are_in_the_list(include_prerelease: bool, parts: UrlPartsView)
    ensures
        !include_prerelease ==> !asks_for_list(include_prerelease, Some(parts)),
        !asks_for_list(include_prerelease, None),
        has_suffix(parts.path, "/releases/latest"@) ==> asks_for_list(true, Some(parts))
            && list_path(parts.path) + "/latest"@ == parts.path,
{
    if has_suffix(parts.path, "/releases/latest"@) {
        reveal_strlit("/releases/latest");
        reveal_strlit("/latest");
        let path = parts.path;
        let n = path.len() as int;
        let end = path.subrange(n - 16, n);
        assert(end == "/releases/latest"@);
        assert(list_path(path) + "/latest"@ =~= path) by {
            assert forall|k: int| 0 <= k < 7 implies "/latest"@[k] == path[n - 7 + k] by {
                assert(end[9 + k] == path[n - 16 + 9 + k]);
                assert("/releases/latest"@[9 + k] == "/latest"@[k]);
            }
        }
    }
}

/// Of some releases one is the best where any has a version, and it has one.
pub proof fn best_releases_are_versions(releases: Seq<GitHubRelease>)
    ensures
        best_of(releases) matches Some(b) ==> 0 <= b < releases.len() && is_version(
            releases[b].version(),
        ),
        best_of(releases) is None ==> forall|j: int|
            0 <= j < releases.len() ==> !is_version((#[trigger] releases[j]).version()),
    decreases releases.len(),
{
    if releases.len() > 0 {
        let before = releases.drop_last();
        best_releases_are_versions(before);
        assert forall|j: int| 0 <= j < before.len() implies before[j] == releases[j] by {}
        if best_of(releases) is None {
            assert forall|j: int| 0 <= j < releases.len() implies !is_version(
                (#[trigger] releases[j]).version(),
            ) by {
                if j < before.len() {
                    assert(before[j] == releases[j]);
                }
            }
        }
    }
}

/// A later release takes the place of an earlier one unless the earlier one is
/// newer.
pub proof fn newer_releases_win(releases: Seq<GitHubRelease>, one: GitHubRelease)
    requires
        is_version(one.version()),
    ensures
        best_of(releases.push(one)) is Some,
        best_of(releases) is None ==> best_of(releases.push(one)) == Some(releases.len() as int),
        best_of(releases) matches Some(b) ==> best_of(releases.push(one)) == Some(
            if version_after(releases[b].version(), one.version()) {
                b
            } else {
                releases.len() as int
            },
        ),
{
    best_releases_are_versions(releases);
    assert(releases.push(one).drop_last() =~= releases);
}

} // verus!
