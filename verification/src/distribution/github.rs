//! Releases published on GitHub: how each component names its repository, its
//! assets and its tags, and how the newest release is found.

use crate::distribution::platform::{Platform, PlatformView};
use crate::error::{Failure, RzupError};
use crate::text::{same_text, strip_prefix};
use crate::version::{lemma_parse_canonical, parsed_version, triple_text, Version};
use vstd::prelude::*;

verus! {

/// Which rendering of the platform an asset's name ends in.
#[derive(Clone, Copy, Debug, PartialEq, Eq, Structural)]
pub enum PlatformForm {
    /// The target triple.
    TargetTriple,
    /// The display name.
    Name,
}

/// How one component is named on the release host.
///
/// An asset is called `{asset_stem}-{platform}.{extension}`, with the platform
/// rendered as `platform_form` says, and a release is tagged
/// `{tag_prefix}{major}.{minor}.{patch}`.
#[derive(Clone, Copy, Debug, PartialEq, Eq)]
pub struct NamingScheme<'a> {
    pub repo: &'static str,
    pub asset_stem: &'a str,
    pub platform_form: PlatformForm,
    pub tag_prefix: &'static str,
    pub extension: &'static str,
}

/// The mathematical content of a `NamingScheme`.
pub struct NamingSchemeView {
    pub repo: Seq<char>,
    pub asset_stem: Seq<char>,
    pub platform_form: PlatformForm,
    pub tag_prefix: Seq<char>,
    pub extension: Seq<char>,
}

impl<'a> View for NamingScheme<'a> {
    type V = NamingSchemeView;

    open spec fn view(&self) -> NamingSchemeView {
        NamingSchemeView {
            repo: self.repo@,
            asset_stem: self.asset_stem@,
            platform_form: self.platform_form,
            tag_prefix: self.tag_prefix@,
            extension: self.extension@,
        }
    }
}

/// The naming table. It has an entry for `cargo-risczero`, one for `rust`, and
/// one that serves every other component, so every identifier has a scheme.
pub open spec fn scheme_of(component: Seq<char>) -> NamingSchemeView {
    if component == "cargo-risczero"@ {
        NamingSchemeView {
            repo: "risc0"@,
            asset_stem: "cargo-risczero"@,
            platform_form: PlatformForm::Name,
            tag_prefix: "v"@,
            extension: "tgz"@,
        }
    } else if component == "rust"@ {
        NamingSchemeView {
            repo: "risc0"@,
            asset_stem: "rust-toolchain"@,
            platform_form: PlatformForm::TargetTriple,
            tag_prefix: "r0."@,
            extension: "tar.gz"@,
        }
    } else {
        NamingSchemeView {
            repo: "risc0"@,
            asset_stem: component,
            platform_form: PlatformForm::Name,
            tag_prefix: "v"@,
            extension: "tgz"@,
        }
    }
}

/// The platform, rendered in the given form.
pub open spec fn platform_text(platform: PlatformView, form: PlatformForm) -> Seq<char> {
    match form {
        PlatformForm::TargetTriple => platform.target_triple,
        PlatformForm::Name => platform.name,
    }
}

/// The name of a component's asset for a platform, without its extension.
pub open spec fn asset_base(component: Seq<char>, platform: PlatformView) -> Seq<char> {
    scheme_of(component).asset_stem + "-"@ + platform_text(
        platform,
        scheme_of(component).platform_form,
    )
}

/// The name of the archive of a component for a platform.
pub open spec fn archive_name(component: Seq<char>, platform: PlatformView) -> Seq<char> {
    asset_base(component, platform) + "."@ + scheme_of(component).extension
}

/// The tag under which a component's release of `version` is published.
pub open spec fn version_tag(component: Seq<char>, version: Version) -> Seq<char> {
    scheme_of(component).tag_prefix + triple_text(version.major, version.minor, version.patch)
}

/// What the release index holds about a release, as far as it matters here.
#[derive(Clone, Debug, PartialEq, Eq)]
pub struct GithubReleaseResponse {
    pub tag_name: String,
}

/// How far a lookup of the newest release has come: what the caller reports
/// after doing what the last step asked for.
#[derive(Clone, Debug, PartialEq, Eq)]
pub enum Progress {
    /// Nothing has been sent yet.
    Start,
    /// The index answered with this HTTP status. The body is still unread.
    Status(u16),
    /// The body decoded to this release.
    Release(GithubReleaseResponse),
    /// The request could not be made or answered, or the body did not decode;
    /// the text is the cause.
    Failed(String),
}

/// The mathematical content of a `Progress`.
pub enum ProgressView {
    Start,
    Status(u16),
    Release(Seq<char>),
    Failed(Seq<char>),
}

impl View for Progress {
    type V = ProgressView;

    open spec fn view(&self) -> ProgressView {
        match self {
            Progress::Start => ProgressView::Start,
            Progress::Status(status) => ProgressView::Status(*status),
            Progress::Release(release) => ProgressView::Release(release.tag_name@),
            Progress::Failed(cause) => ProgressView::Failed(cause@),
        }
    }
}

/// One GET request to the release index.
#[derive(Clone, Debug, PartialEq, Eq)]
pub struct IndexRequest {
    pub url: String,
    /// The value of the `User-Agent` header.
    pub user_agent: &'static str,
    /// After how many seconds the request is given up.
    pub timeout_secs: u64,
}

/// The mathematical content of an `IndexRequest`.
pub struct IndexRequestView {
    pub url: Seq<char>,
    pub user_agent: Seq<char>,
    pub timeout_secs: u64,
}

impl View for IndexRequest {
    type V = IndexRequestView;

    open spec fn view(&self) -> IndexRequestView {
        IndexRequestView {
            url: self.url@,
            user_agent: self.user_agent@,
            timeout_secs: self.timeout_secs,
        }
    }
}

/// What a lookup needs next, or what it came to.
#[derive(Debug, PartialEq, Eq)]
pub enum Step<T> {
    /// Send this request, then report `Progress::Status` with the status of
    /// the answer, or `Progress::Failed`.
    Request(IndexRequest),
    /// Decode the body of the answer as a release, then report
    /// `Progress::Release`, or `Progress::Failed`.
    Decode,
    /// The lookup is over, with this outcome.
    Done(Result<T, RzupError>),
}

/// The mathematical content of a `Step`.
pub enum StepView<T> {
    Request(IndexRequestView),
    Decode,
    Done(Result<T, Failure>),
}

/// The view of the outcome of reading a version.
pub open spec fn version_outcome(outcome: Result<Version, RzupError>) -> Result<Version, Failure> {
    match outcome {
        Ok(version) => Ok(version),
        Err(error) => Err(error@),
    }
}

/// The view of a step towards a version.
pub open spec fn version_step_view(step: Step<Version>) -> StepView<Version> {
    match step {
        Step::Request(request) => StepView::Request(request@),
        Step::Decode => StepView::Decode,
        Step::Done(outcome) => StepView::Done(version_outcome(outcome)),
    }
}

/// The view of a step towards a text.
pub open spec fn text_step_view(step: Step<String>) -> StepView<Seq<char>> {
    match step {
        Step::Request(request) => StepView::Request(request@),
        Step::Decode => StepView::Decode,
        Step::Done(Ok(text)) => StepView::Done(Ok(text@)),
        Step::Done(Err(error)) => StepView::Done(Err(error@)),
    }
}

/// The version that a release tag of a component denotes. The tag has to start
/// with the component's prefix, and what follows has to be a three-part
/// version; where it fails, the error carries the text that could not be read:
/// the whole tag, or what follows the prefix.
pub open spec fn tag_version(component: Seq<char>, tag: Seq<char>) -> Result<Version, Failure> {
    let prefix = scheme_of(component).tag_prefix;
    if prefix.is_prefix_of(tag) {
        let rest = tag.skip(prefix.len() as int);
        match parsed_version(rest) {
            Some(version) => Ok(version),
            None => Err(Failure::InvalidVersion(rest)),
        }
    } else {
        Err(Failure::InvalidVersion(tag))
    }
}

/// Where the release index tells of a component's newest release.
pub open spec fn index_url(component: Seq<char>) -> Seq<char> {
    "https://api.github.com/repos/risc0/"@ + scheme_of(component).repo + "/releases/latest"@
}

/// The request that asks the release index for a component's newest release.
pub open spec fn index_request(component: Seq<char>) -> IndexRequestView {
    IndexRequestView { url: index_url(component), user_agent: "rzup"@, timeout_secs: 10 }
}

/// Whether an HTTP status says that the index has had too many requests.
pub open spec fn is_rate_limited(status: u16) -> bool {
    status == 403 || status == 429
}

/// What a rate-limited caller is told.
pub open spec fn rate_limit_hint() -> Seq<char> {
    "GitHub API rate limit exceeded. Please try again later."@
}

/// The next step of a lookup of a component's newest version.
pub open spec fn latest_version_step(component: Seq<char>, progress: ProgressView) -> StepView<
    Version,
> {
    match progress {
        ProgressView::Start => StepView::Request(index_request(component)),
        ProgressView::Status(status) => if is_rate_limited(status) {
            StepView::Done(Err(Failure::RateLimited(rate_limit_hint())))
        } else {
            StepView::Decode
        },
        ProgressView::Release(tag) => StepView::Done(tag_version(component, tag)),
        ProgressView::Failed(cause) => StepView::Done(Err(Failure::Other(cause))),
    }
}

/// Where the archive of a component's release of `version` for a platform is
/// downloaded from.
pub open spec fn download_url_of(
    component: Seq<char>,
    version: Version,
    platform: PlatformView,
) -> Seq<char> {
    "https://github.com/risc0/"@ + scheme_of(component).repo + "/releases/download/"@
        + version_tag(component, version) + "/"@ + archive_name(component, platform)
}

/// The version that a caller pinned, if any.
pub open spec fn pinned(version: Option<&Version>) -> Option<Version> {
    match version {
        Some(v) => Some(*v),
        None => None,
    }
}

/// The next step towards the download address of a component. With a pinned
/// version the address is known at once. Without one the newest version is
/// looked up first, and a failure of that lookup is the failure of the whole.
pub open spec fn download_url_step(
    component: Seq<char>,
    version: Option<Version>,
    platform: PlatformView,
    progress: ProgressView,
) -> StepView<Seq<char>> {
    match version {
        Some(v) => StepView::Done(Ok(download_url_of(component, v, platform))),
        None => match latest_version_step(component, progress) {
            StepView::Request(request) => StepView::Request(request),
            StepView::Decode => StepView::Decode,
            StepView::Done(Ok(v)) => StepView::Done(Ok(download_url_of(component, v, platform))),
            StepView::Done(Err(failure)) => StepView::Done(Err(failure)),
        },
    }
}

/// Resolves components to the releases of the `risc0` organisation on GitHub.
#[derive(Clone, Copy, Debug, PartialEq, Eq)]
pub struct GithubRelease;

impl GithubRelease {
    /// Looks a component up in the naming table.
    pub fn scheme<'a>(&self, component_id: &'a str) -> (scheme: NamingScheme<'a>)
        ensures
            scheme@ == scheme_of(component_id@),
    {
        if same_text(component_id, "cargo-risczero") {
            NamingScheme {
                repo: "risc0",
                asset_stem: "cargo-risczero",
                platform_form: PlatformForm::Name,
                tag_prefix: "v",
                extension: "tgz",
            }
        } else if same_text(component_id, "rust") {
            NamingScheme {
                repo: "risc0",
                asset_stem: "rust-toolchain",
                platform_form: PlatformForm::TargetTriple,
                tag_prefix: "r0.",
                extension: "tar.gz",
            }
        } else {
            NamingScheme {
                repo: "risc0",
                asset_stem: component_id,
                platform_form: PlatformForm::Name,
                tag_prefix: "v",
                extension: "tgz",
            }
        }
    }

    /// The repository that publishes a component: `risc0`, whatever the
    /// component.
    pub fn repo_name(&self, component_id: &str) -> (repo: String)
        ensures
            repo@ == scheme_of(component_id@).repo,
            repo@ == "risc0"@,
    {
        String::from_str(self.scheme(component_id).repo)
    }

    /// The name of a component's asset for a platform, and its extension.
    pub fn asset_name(&self, component_id: &str, platform: &Platform) -> (asset: (
        String,
        &'static str,
    ))
        ensures
            asset.0@ == asset_base(component_id@, platform@),
            asset.1@ == scheme_of(component_id@).extension,
            component_id@ == "rust"@ ==> asset.1@ == "tar.gz"@,
            component_id@ != "rust"@ ==> asset.1@ == "tgz"@,
    {
        let scheme = self.scheme(component_id);
        let stem = String::from_str(scheme.asset_stem).concat("-");
        let base = match scheme.platform_form {
            PlatformForm::TargetTriple => stem.concat(platform.target_triple()),
            PlatformForm::Name => stem.concat(platform.to_string().as_str()),
        };
        proof {
            lemma_extension(component_id@);
        }
        (base, scheme.extension)
    }

    /// The tag under which a component's release of `version` is published:
    /// `r0.{major}.{minor}.{patch}` for `rust`, `v{major}.{minor}.{patch}` for
    /// every other component.
    pub fn get_version_str(&self, component_id: &str, version: &Version) -> (tag: String)
        ensures
            tag@ == version_tag(component_id@, *version),
            component_id@ == "rust"@ ==> tag@ == "r0."@ + triple_text(
                version.major,
                version.minor,
                version.patch,
            ),
            component_id@ != "rust"@ ==> tag@ == "v"@ + triple_text(
                version.major,
                version.minor,
                version.patch,
            ),
    {
        proof {
            lemma_tag_prefix(component_id@);
        }
        let scheme = self.scheme(component_id);
        String::from_str(scheme.tag_prefix).concat(version.to_string().as_str())
    }

    /// The file name under which a component's archive is stored locally. The
    /// version does not enter into it.
    pub fn get_archive_name(
        &self,
        component_id: &str,
        _version: Option<&Version>,
        platform: &Platform,
    ) -> (name: String)
        ensures
            name@ == archive_name(component_id@, platform@),
    {
        let (asset, extension) = self.asset_name(component_id, platform);
        asset.concat(".").concat(extension)
    }

    /// The download address of a component's release of `version`.
    pub fn release_url(&self, component_id: &str, version: &Version, platform: &Platform) -> (url:
        String)
        ensures
            url@ == download_url_of(component_id@, *version, platform@),
    {
        let repo = self.repo_name(component_id);
        let tag = self.get_version_str(component_id, version);
        let archive = self.get_archive_name(component_id, Some(version), platform);
        let url = String::from_str("https://github.com/risc0/").concat(repo.as_str()).concat(
            "/releases/download/",
        ).concat(tag.as_str()).concat("/").concat(archive.as_str());
        assert(url@ =~= download_url_of(component_id@, *version, platform@));
        url
    }

    /// Reads the version out of a release tag of a component.
    ///
    /// The tag is accepted exactly where it is the tag that `get_version_str`
    /// makes of some version, and gives that version. A tag without the
    /// component's prefix fails with `InvalidVersion` carrying the tag; one
    /// whose remainder is not the canonical text of a version (too few parts,
    /// a part that is no number or has a leading zero, a pre-release or build
    /// suffix) fails with `InvalidVersion` carrying the remainder.
    pub fn version_from_tag(&self, component_id: &str, tag: &str) -> (outcome: Result<
        Version,
        RzupError,
    >)
        ensures
            version_outcome(outcome) == tag_version(component_id@, tag@),
            forall|v: Version|
                outcome == Ok::<Version, RzupError>(v) <==> tag@ == #[trigger] version_tag(
                    component_id@,
                    v,
                ),
    {
        proof {
            assert forall|v: Version|
                tag_version(component_id@, tag@) == Ok::<Version, Failure>(v) <==> tag@
                    == #[trigger] version_tag(component_id@, v) by {
                lemma_tag_accepted(component_id@, tag@, v);
            }
        }
        let scheme = self.scheme(component_id);
        match strip_prefix(tag, scheme.tag_prefix) {
            Some(rest) => match Version::parse(rest) {
                Some(version) => Ok(version),
                None => Err(RzupError::InvalidVersion(String::from_str(rest))),
            },
            None => Err(RzupError::InvalidVersion(String::from_str(tag))),
        }
    }

    /// The request that asks the release index for a component's newest
    /// release.
    pub fn latest_release_request(&self, component_id: &str) -> (request: IndexRequest)
        ensures
            request@ == index_request(component_id@),
    {
        let repo = self.repo_name(component_id);
        let url = String::from_str("https://api.github.com/repos/risc0/").concat(
            repo.as_str(),
        ).concat("/releases/latest");
        IndexRequest { url, user_agent: "rzup", timeout_secs: 10 }
    }

    /// One step of finding a component's newest version.
    ///
    /// The caller starts with `Progress::Start`, does what the returned step
    /// asks, reports what came of it, and goes on until the step is `Done`.
    /// A status of 403 or 429 ends the lookup with `RateLimited` before any
    /// body is decoded; every other status asks for the body. A decoded
    /// release ends it with the version in its tag, or with `InvalidVersion`.
    /// A reported failure ends it with `Other` and the reported cause.
    pub fn latest_version(&self, component_id: &str, progress: &Progress) -> (step: Step<Version>)
        ensures
            version_step_view(step) == latest_version_step(component_id@, progress@),
    {
        match progress {
            Progress::Start => Step::Request(self.latest_release_request(component_id)),
            Progress::Status(status) => {
                if *status == 403 || *status == 429 {
                    Step::Done(
                        Err(
                            RzupError::RateLimited(
                                String::from_str(
                                    "GitHub API rate limit exceeded. Please try again later.",
                                ),
                            ),
                        ),
                    )
                } else {
                    Step::Decode
                }
            },
            Progress::Release(release) => Step::Done(
                self.version_from_tag(component_id, release.tag_name.as_str()),
            ),
            Progress::Failed(cause) => Step::Done(Err(RzupError::Other(cause.clone()))),
        }
    }

    /// One step of finding the download address of a component.
    ///
    /// With a pinned version the first step is `Done` with the address, and
    /// `progress` is not looked at. Without one the steps are those of
    /// `latest_version`; the version it finds goes into the address, and its
    /// error is handed on unchanged.
    pub fn download_url(
        &self,
        component_id: &str,
        version: Option<&Version>,
        platform: &Platform,
        progress: &Progress,
    ) -> (step: Step<String>)
        ensures
            text_step_view(step) == download_url_step(
                component_id@,
                pinned(version),
                platform@,
                progress@,
            ),
    {
        match version {
            Some(v) => Step::Done(Ok(self.release_url(component_id, v, platform))),
            None => match self.latest_version(component_id, progress) {
                Step::Request(request) => Step::Request(request),
                Step::Decode => Step::Decode,
                Step::Done(Ok(v)) => Step::Done(Ok(self.release_url(component_id, &v, platform))),
                Step::Done(Err(error)) => Step::Done(Err(error)),
            },
        }
    }
}

/// The `rust` component is published as a gzip tarball, `.tar.gz`; every other
/// component, known or not, under the short form `.tgz`.
pub proof fn lemma_extension(component: Seq<char>)
    ensures
        component == "rust"@ ==> scheme_of(component).extension == "tar.gz"@,
        component != "rust"@ ==> scheme_of(component).extension == "tgz"@,
        "tar.gz"@ != "tgz"@,
{
    reveal_strlit("rust");
    reveal_strlit("cargo-risczero");
    reveal_strlit("tar.gz");
    reveal_strlit("tgz");
    assert("rust"@.len() != "cargo-risczero"@.len());
    assert("tar.gz"@.len() != "tgz"@.len());
}

/// Every component, known or not, is published by the one repository `risc0`.
pub proof fn lemma_single_repo(component: Seq<char>)
    ensures
        scheme_of(component).repo == "risc0"@,
{
}

/// The tag of `rust` starts with `r0.`, the tag of every other component with
/// `v`.
pub proof fn lemma_tag_prefix(component: Seq<char>)
    ensures
        component == "rust"@ ==> scheme_of(component).tag_prefix == "r0."@,
        component != "rust"@ ==> scheme_of(component).tag_prefix == "v"@,
{
    reveal_strlit("rust");
    reveal_strlit("cargo-risczero");
    assert("rust"@.len() != "cargo-risczero"@.len());
}

/// A tag reads as a version exactly when it is the tag made from that version:
/// nothing else is accepted, and nothing is lost in reading.
pub proof fn lemma_tag_accepted(component: Seq<char>, tag: Seq<char>, version: Version)
    ensures
        tag_version(component, tag) == Ok::<Version, Failure>(version) <==> tag == version_tag(
            component,
            version,
        ),
{
    let prefix = scheme_of(component).tag_prefix;
    if tag == version_tag(component, version) {
        lemma_tag_round_trip(component, version);
    }
    if tag_version(component, tag) == Ok::<Version, Failure>(version) {
        let rest = tag.skip(prefix.len() as int);
        assert(rest == triple_text(version.major, version.minor, version.patch));
        assert(tag =~= prefix + rest);
    }
}

/// Reading a version back out of the tag that was made from it gives the
/// version again, for every component and every version.
pub proof fn lemma_tag_round_trip(component: Seq<char>, version: Version)
    ensures
        tag_version(component, version_tag(component, version)) == Ok::<Version, Failure>(version),
{
    let prefix = scheme_of(component).tag_prefix;
    let text = triple_text(version.major, version.minor, version.patch);
    let tag = version_tag(component, version);
    assert(tag.subrange(0, prefix.len() as int) =~= prefix);
    assert(tag.skip(prefix.len() as int) =~= text);
    lemma_parse_canonical(version);
}

} // verus!
