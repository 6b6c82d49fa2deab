use vstd::prelude::*;
use vstd::string::*;
use crate::errors::{ErrorKind, UpdateError};
use crate::strutil::str_eq;
use crate::version_state::{spec_load, load_tag};

verus! {

/// Decision of the staleness check.
#[derive(Clone, Copy, Debug, PartialEq, Eq, Structural)]
pub enum Version {
    UpToDate(),
    Downloaded(),
}

/// Build flavor of the executable to launch.
#[derive(Clone, Copy, Debug, PartialEq, Eq, Structural)]
pub enum LaunchVariant {
    X86,
    X64,
}

/// The update state threaded through one run: the last installed tag, the
/// release host base URL, and the freshly resolved latest tag.
pub struct Updater {
    pub current_tag: String,
    pub base_url: String,
    pub latest_tag: String,
}

/// The "latest release" endpoint of the release host.
pub open spec fn spec_latest_url(base: Seq<char>) -> Seq<char> {
    base + "/latest"@
}

/// The download URL of the release archive for `tag`; the version in the
/// file name is the tag without its leading character. This format is an
/// external contract with the release host.
pub open spec fn spec_download_url(base: Seq<char>, tag: Seq<char>) -> Seq<char> {
    base + "/download/"@ + tag + "/Textractor-"@ + tag.skip(1)
        + "-Zip-Version-English-Only.zip"@
}

/// The staleness decision: up to date exactly when the two tags are equal.
/// Tags are opaque; the system detects "different", never "newer".
pub open spec fn spec_decide(current: Seq<char>, latest: Seq<char>) -> Version {
    if current == latest {
        Version::UpToDate()
    } else {
        Version::Downloaded()
    }
}

/// The launch variant a caller-supplied string selects; anything but the
/// recognized values falls back to x86.
pub open spec fn spec_variant(s: Seq<char>) -> LaunchVariant {
    if s == "x64"@ || s == "64"@ {
        LaunchVariant::X64
    } else {
        LaunchVariant::X86
    }
}

/// Build the "latest release" endpoint URL for a release host.
pub fn latest_url_of(base: &str) -> (r: String)
    ensures
        r@ == spec_latest_url(base@),
{
    let mut url = base.to_owned();
    url.append("/latest");
    url
}

/// Build the download URL of the release archive for `tag`.
pub fn download_url(base: &str, tag: &str) -> (r: String)
    requires
        tag@.len() >= 1,
    ensures
        r@ == spec_download_url(base@, tag@),
{
    let n = tag.unicode_len();
    let version = tag.substring_char(1, n);
    let mut url = base.to_owned();
    url.append("/download/");
    url.append(tag);
    url.append("/Textractor-");
    url.append(version);
    url.append("-Zip-Version-English-Only.zip");
    url
}

/// Map the caller-supplied architecture string to a launch variant.
pub fn parse_variant(s: &str) -> (v: LaunchVariant)
    ensures
        v == spec_variant(s@),
{
    if str_eq(s, "x64") || str_eq(s, "64") {
        LaunchVariant::X64
    } else {
        LaunchVariant::X86
    }
}

impl Updater {
    pub fn new() -> (r: Updater)
        ensures
            r.current_tag@ == "v0.0.0"@,
            r.latest_tag@ == "v0.0.0"@,
            r.base_url@ == "https://github.com/Artikash/Textractor/releases"@,
    {
        Updater {
            current_tag: "v0.0.0".to_owned(),
            latest_tag: "v0.0.0".to_owned(),
            base_url: "https://github.com/Artikash/Textractor/releases".to_owned(),
        }
    }

    /// The endpoint the resolver queries for the latest release.
    pub fn latest_url(&self) -> (r: String)
        ensures
            r@ == spec_latest_url(self.base_url@),
    {
        latest_url_of(self.base_url.as_str())
    }

    /// The exact download URL of the latest release archive.
    pub fn get_download_url(&self) -> (r: String)
        requires
            self.latest_tag@.len() >= 1,
        ensures
            r@ == spec_download_url(self.base_url@, self.latest_tag@),
    {
        download_url(self.base_url.as_str(), self.latest_tag.as_str())
    }

    /// The staleness decision for this run's pair of tags. Equal tags are up
    /// to date; any difference selects the download branch.
    pub fn download_latest(&self) -> (v: Version)
        ensures
            v == spec_decide(self.current_tag@, self.latest_tag@),
    {
        if str_eq(self.current_tag.as_str(), self.latest_tag.as_str()) {
            Version::UpToDate()
        } else {
            Version::Downloaded()
        }
    }

    /// Take over the tag read from the marker file (`None` = file absent,
    /// which falls back to the sentinel); an unreadable marker is fatal and
    /// leaves the state unchanged.
    pub fn set_current_tag(&mut self, contents: Option<String>) -> (r: Result<(), UpdateError>)
        ensures
            r is Ok ==> spec_load(contents.deep_view()) == Some(final(self).current_tag@),
            r matches Err(e) ==> spec_load(contents.deep_view()) is None
                && e.kind == ErrorKind::Io && *final(self) == *old(self),
            final(self).base_url == old(self).base_url,
            final(self).latest_tag == old(self).latest_tag,
    {
        match load_tag(contents) {
            Ok(t) => {
                self.current_tag = t;
                Ok(())
            },
            Err(e) => Err(e),
        }
    }
}

} // verus!
