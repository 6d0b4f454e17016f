//! Whether a newer release is available, decided from version texts and the
//! release document that the project's release page serves.
use vstd::prelude::*;

use crate::text::{chars_of, decimal};

verus! {

#[verifier::external_type_specification]
#[verifier::external_body]
pub struct ExSemverVersion(semver::Version);

#[verifier::external_type_specification]
#[verifier::external_body]
pub struct ExJsonValue(serde_json::Value);

/// The GitHub repository that releases are published under.
pub const GITHUB_REPO: &'static str = "wedontselldrugs/interceptor";

/// Where the check for a newer release stands.
pub enum UpdateStatus {
    Checking,
    UpToDate,
    Available { version: String, url: String },
    Skipped { version: String, url: String },
    Failed(String),
}

/// The contents of an update status.
pub enum StatusView {
    Checking,
    UpToDate,
    Available { version: Seq<char>, url: Seq<char> },
    Skipped { version: Seq<char>, url: Seq<char> },
    Failed(Seq<char>),
}

impl View for UpdateStatus {
    type V = StatusView;

    open spec fn view(&self) -> StatusView {
        match self {
            UpdateStatus::Checking => StatusView::Checking,
            UpdateStatus::UpToDate => StatusView::UpToDate,
            UpdateStatus::Available { version, url } => StatusView::Available {
                version: version@,
                url: url@,
            },
            UpdateStatus::Skipped { version, url } => StatusView::Skipped {
                version: version@,
                url: url@,
            },
            UpdateStatus::Failed(message) => StatusView::Failed(message@),
        }
    }
}

impl Clone for UpdateStatus {
    fn clone(&self) -> (r: Self)
        ensures
            r@ == self@,
    {
        match self {
            UpdateStatus::Checking => UpdateStatus::Checking,
            UpdateStatus::UpToDate => UpdateStatus::UpToDate,
            UpdateStatus::Available { version, url } => UpdateStatus::Available {
                version: version.clone(),
                url: url.clone(),
            },
            UpdateStatus::Skipped { version, url } => UpdateStatus::Skipped {
                version: version.clone(),
                url: url.clone(),
            },
            UpdateStatus::Failed(message) => UpdateStatus::Failed(message.clone()),
        }
    }
}

/// Whether the user is being offered an update.
pub fn update_available(status: &UpdateStatus) -> (r: bool)
    ensures
        r == (status@ is Available),
{
    match status {
        UpdateStatus::Available { .. } => true,
        _ => false,
    }
}

/// The page listing the latest release.
pub open spec fn releases_page() -> Seq<char> {
    "https://github.com/"@ + GITHUB_REPO@ + "/releases/latest"@
}

pub fn github_releases_url() -> (r: String)
    ensures
        r@ == releases_page(),
{
    let mut r = String::from_str("https://github.com/");
    r.append(GITHUB_REPO);
    r.append("/releases/latest");
    r
}

/// The API address of the latest release.
pub open spec fn latest_release_api() -> Seq<char> {
    "https://api.github.com/repos/"@ + GITHUB_REPO@ + "/releases/latest"@
}

pub fn latest_release_api_url() -> (r: String)
    ensures
        r@ == latest_release_api(),
{
    let mut r = String::from_str("https://api.github.com/repos/");
    r.append(GITHUB_REPO);
    r.append("/releases/latest");
    r
}

/// The page to open for an update: the offered (or skipped) release's own
/// page, or the releases page when there is none.
pub fn update_page_url(status: &UpdateStatus) -> (r: String)
    ensures
        r@ == match status@ {
            StatusView::Available { url, .. } => url,
            StatusView::Skipped { url, .. } => url,
            _ => releases_page(),
        },
{
    match status {
        UpdateStatus::Available { url, .. } => url.clone(),
        UpdateStatus::Skipped { url, .. } => url.clone(),
        _ => github_releases_url(),
    }
}

/// `s` without any `v` characters at its start.
pub open spec fn without_leading_v(s: Seq<char>) -> Seq<char>
    decreases s.len(),
{
    if s.len() > 0 && s[0] == 'v' {
        without_leading_v(s.drop_first())
    } else {
        s
    }
}

/// `text` without any `v` characters at its start.
pub fn trim_leading_v(text: &str) -> (r: &str)
    ensures
        r@ == without_leading_v(text@),
{
    let v = chars_of(text);
    let mut i: usize = 0;
    assert(v@.subrange(0, v@.len() as int) =~= v@);
    while i < v.len() && v[i] == 'v'
        invariant
            v@ == text@,
            i <= v.len(),
            without_leading_v(text@) == without_leading_v(v@.subrange(i as int, v@.len() as int)),
        decreases v.len() - i,
    {
        assert(v@.subrange(i as int, v@.len() as int).drop_first() =~= v@.subrange(
            i + 1,
            v@.len() as int,
        ));
        i = i + 1;
    }
    text.substring_char(i, v.len())
}

/// A version's major, minor and patch numbers, its pre-release text and its
/// build text.
pub type VersionParts = (u64, u64, u64, Seq<char>, Seq<char>);

/// What `semver::Version::parse` gives for a text: the version's parts, or
/// the message of the error it reports.
pub uninterp spec fn semver_parse(text: Seq<char>) -> Result<VersionParts, Seq<char>>;

/// Whether `semver` orders version `a` after version `b`.
pub uninterp spec fn semver_newer(a: VersionParts, b: VersionParts) -> bool;

/// A version read from text, kept together with its parts.
pub struct ReleaseVersion {
    version: semver::Version,
    major: u64,
    minor: u64,
    patch: u64,
    pre: String,
    build: String,
}

impl View for ReleaseVersion {
    type V = VersionParts;

    closed spec fn view(&self) -> VersionParts {
        (self.major, self.minor, self.patch, self.pre@, self.build@)
    }
}

/// A plain version text: three numbers in decimal, without leading zeros,
/// separated by dots.
pub open spec fn plain_version_text(major: u64, minor: u64, patch: u64) -> Seq<char> {
    decimal(major as nat) + "."@ + decimal(minor as nat) + "."@ + decimal(patch as nat)
}

/// Whether version numbers `a` come after `b`: by major, then minor, then
/// patch number.
pub open spec fn numbers_after(a: (u64, u64, u64), b: (u64, u64, u64)) -> bool {
    a.0 > b.0 || (a.0 == b.0 && (a.1 > b.1 || (a.1 == b.1 && a.2 > b.2)))
}

/// Calls `semver::Version::parse`. Claimed: on success the parts of the
/// result, and on failure the message of the error, are what `semver_parse`
/// names for the text; and a plain `major.minor.patch` text reads as those
/// three numbers with no pre-release or build part.
#[verifier::external_body]
fn parse_version(text: &str) -> (r: Result<ReleaseVersion, String>)
    ensures
        match r {
            Ok(v) => semver_parse(text@) == Ok::<VersionParts, Seq<char>>(v@),
            Err(e) => semver_parse(text@) == Err::<VersionParts, Seq<char>>(e@),
        },
        forall|a: u64, b: u64, c: u64|
            #[trigger] plain_version_text(a, b, c) == text@ ==> r is Ok && r->Ok_0@ == (
                a,
                b,
                c,
                Seq::<char>::empty(),
                Seq::<char>::empty(),
            ),
{
    match semver::Version::parse(text) {
        Ok(v) => Ok(ReleaseVersion {
            major: v.major,
            minor: v.minor,
            patch: v.patch,
            pre: v.pre.as_str().to_string(),
            build: v.build.as_str().to_string(),
            version: v,
        }),
        Err(e) => Err(e.to_string()),
    }
}

/// Compares with `semver::Version`'s `>`. Claimed: the result is what
/// `semver_newer` names for the two versions' parts; versions are ordered by
/// major, then minor, then patch number first, and a version is not after an
/// equal one.
#[verifier::external_body]
fn is_newer(a: &ReleaseVersion, b: &ReleaseVersion) -> (r: bool)
    ensures
        r == semver_newer(a@, b@),
        a@.0 != b@.0 ==> r == (a@.0 > b@.0),
        a@.0 == b@.0 && a@.1 != b@.1 ==> r == (a@.1 > b@.1),
        a@.0 == b@.0 && a@.1 == b@.1 && a@.2 != b@.2 ==> r == (a@.2 > b@.2),
        a@ == b@ ==> !r,
{
    a.version > b.version
}

/// The update status for a running version and the latest released one.
pub open spec fn version_status(running: Seq<char>, latest: Seq<char>, url: Seq<char>) -> StatusView {
    let running = without_leading_v(running);
    let latest = without_leading_v(latest);
    match semver_parse(running) {
        Err(e) => StatusView::Failed("invalid app version: "@ + e),
        Ok(r) => match semver_parse(latest) {
            Err(e) => StatusView::Failed("invalid release version: "@ + e),
            Ok(l) => if semver_newer(l, r) {
                StatusView::Available { version: latest, url }
            } else {
                StatusView::UpToDate
            },
        },
    }
}

/// Offers the latest release when it is newer than the running version:
/// when both versions read, an update is offered exactly when the release
/// is later by major, then minor, then patch number, and never for the
/// running version itself.
pub fn update_status_for_versions(running_version: &str, latest_version: &str, url: String) -> (r:
    UpdateStatus)
    ensures
        r@ == version_status(running_version@, latest_version@, url@),
        match (
            semver_parse(without_leading_v(running_version@)),
            semver_parse(without_leading_v(latest_version@)),
        ) {
            (Ok(run), Ok(rel)) => {
                &&& rel == run ==> r@ == StatusView::UpToDate
                &&& rel.0 != run.0 ==> (r@ is Available <==> rel.0 > run.0)
                &&& rel.0 == run.0 && rel.1 != run.1 ==> (r@ is Available <==> rel.1 > run.1)
                &&& rel.0 == run.0 && rel.1 == run.1 && rel.2 != run.2 ==> (r@ is Available
                    <==> rel.2 > run.2)
            },
            _ => true,
        },
        forall|a1: u64, b1: u64, c1: u64, a2: u64, b2: u64, c2: u64|
            #![trigger plain_version_text(a1, b1, c1), plain_version_text(a2, b2, c2)]
            without_leading_v(running_version@) == plain_version_text(a1, b1, c1)
                && without_leading_v(latest_version@) == plain_version_text(a2, b2, c2) ==> (
            r@ is Available || r@ is UpToDate) && (r@ is Available <==> numbers_after(
                (a2, b2, c2),
                (a1, b1, c1),
            )),
{
    let running = match parse_version(trim_leading_v(running_version)) {
        Ok(v) => v,
        Err(e) => return UpdateStatus::Failed(
            String::from_str("invalid app version: ").concat(e.as_str()),
        ),
    };
    let latest_text = trim_leading_v(latest_version);
    let latest = match parse_version(latest_text) {
        Ok(v) => v,
        Err(e) => return UpdateStatus::Failed(
            String::from_str("invalid release version: ").concat(e.as_str()),
        ),
    };
    if is_newer(&latest, &running) {
        UpdateStatus::Available { version: String::from_str(latest_text), url }
    } else {
        UpdateStatus::UpToDate
    }
}

/// The update status for what a release document says: its tag names the
/// latest version, and its page (or else the releases page) is offered.
pub open spec fn release_status(tag_name: Option<Seq<char>>, html_url: Option<Seq<char>>, running: Seq<char>) -> StatusView {
    match tag_name {
        None => StatusView::Failed("latest release has no tag_name"@),
        Some(tag) => {
            let url = match html_url {
                Some(u) => u,
                None => releases_page(),
            };
            version_status(running, without_leading_v(tag), url)
        },
    }
}

/// The text of an optional string.
pub open spec fn text_of(s: Option<String>) -> Option<Seq<char>> {
    match s {
        Some(t) => Some(t@),
        None => None,
    }
}

/// Decides the update status from the text fields of a release document.
pub fn update_status_for_release(
    tag_name: Option<String>,
    html_url: Option<String>,
    running_version: &str,
) -> (r: UpdateStatus)
    ensures
        r@ == release_status(text_of(tag_name), text_of(html_url), running_version@),
{
    let tag = match tag_name {
        Some(t) => t,
        None => return UpdateStatus::Failed(String::from_str("latest release has no tag_name")),
    };
    let latest = trim_leading_v(tag.as_str());
    let page_url = match html_url {
        Some(u) => u,
        None => github_releases_url(),
    };
    proof {
        lemma_without_leading_v_idempotent(tag@);
    }
    update_status_for_versions(running_version, latest, page_url)
}

/// Removing leading `v`s twice is removing them once.
proof fn lemma_without_leading_v_idempotent(s: Seq<char>)
    ensures
        without_leading_v(without_leading_v(s)) == without_leading_v(s),
    decreases s.len(),
{
    if s.len() > 0 && s[0] == 'v' {
        lemma_without_leading_v_idempotent(s.drop_first());
    }
}

/// What `serde_json::from_str` reports for a text that is not a JSON
/// document: the error's message, or nothing when the text is one.
pub uninterp spec fn json_parse_failure(text: Seq<char>) -> Option<Seq<char>>;

/// What `serde_json` gives for the member `key` of the JSON document `text`,
/// read as text: the member's string when it is a JSON string, and nothing
/// when there is no such member or it holds another kind of value.
pub uninterp spec fn json_string_field(text: Seq<char>, key: Seq<char>) -> Option<Seq<char>>;

/// A parsed JSON document, kept with the text it was read from.
struct JsonDoc {
    value: serde_json::Value,
    text: Ghost<Seq<char>>,
}

impl View for JsonDoc {
    type V = Seq<char>;

    closed spec fn view(&self) -> Seq<char> {
        self.text@
    }
}

/// Calls `serde_json::from_str` for a JSON value. Claimed: it fails, with the
/// message `json_parse_failure` names, exactly when that name gives one, and
/// the document it gives is the one read from `text`.
#[verifier::external_body]
fn parse_json(text: &str) -> (r: Result<JsonDoc, String>)
    ensures
        match r {
            Ok(doc) => json_parse_failure(text@) is None && doc@ == text@,
            Err(e) => json_parse_failure(text@) == Some(e@),
        },
{
    match serde_json::from_str::<serde_json::Value>(text) {
        Ok(value) => Ok(JsonDoc { value, text: Ghost(text@) }),
        Err(e) => Err(e.to_string()),
    }
}

/// Calls `serde_json::Value::get` with a key and keeps the member's text when
/// it is a JSON string. Claimed: the result is what `json_string_field` names
/// for the document's text and the key.
#[verifier::external_body]
fn json_text_member(doc: &JsonDoc, key: &str) -> (r: Option<String>)
    ensures
        text_of(r) == json_string_field(doc@, key@),
{
    match doc.value.get(key) {
        Some(serde_json::Value::String(text)) => Some(text.clone()),
        _ => None,
    }
}

/// Decides the update status from the body of the latest-release document:
/// a body that is not JSON fails with the parser's message; otherwise the
/// status is that of its `tag_name` and `html_url` text fields.
pub fn update_status_from_release_document(body: &str, running_version: &str) -> (r: UpdateStatus)
    ensures
        match json_parse_failure(body@) {
            Some(e) => r@ == StatusView::Failed(e),
            None => r@ == release_status(
                json_string_field(body@, "tag_name"@),
                json_string_field(body@, "html_url"@),
                running_version@,
            ),
        },
{
    let doc = match parse_json(body) {
        Ok(doc) => doc,
        Err(e) => return UpdateStatus::Failed(e),
    };
    let tag = json_text_member(&doc, "tag_name");
    let url = json_text_member(&doc, "html_url");
    update_status_for_release(tag, url, running_version)
}

} // verus!
