//! The decision logic around installing a dedicated server: the
//! pre-flight check that may refuse a download before any byte is
//! fetched, the download URL for a version, and the extraction of the
//! newest version number from the download page.  Fetching bytes, writing files and unpacking
//! archives stay with the callers.

use vstd::prelude::*;
use vstd::string::StrSliceExecFns;
use vstd::string::StringExecFns;

use crate::text::contains_at;

verus! {

/// Why a server download was refused or failed.
#[derive(Clone, Debug, PartialEq, Eq)]
pub enum ServerDownloadError {
    /// The caller has not accepted the EULA and Privacy Policy.
    EulaAndPrivacyPolicyNotAccepted,
    /// The download itself failed.
    DownloadFailed(String),
    /// The downloaded archive could not be read.
    ZipReadFailed(String),
    /// No temporary file could be created for the archive.
    TempFileCreationFailed(String),
    /// The archive could not be extracted.
    ExtractionFailed(String),
    /// The target path is unusable.
    InvalidPath(String),
    /// This version is already installed and no reinstall was forced.
    ServerAlreadyInstalled(String),
}

impl ServerDownloadError {
    /// The display text of the error.
    pub open spec fn message_spec(&self) -> Seq<char> {
        match self {
            ServerDownloadError::EulaAndPrivacyPolicyNotAccepted => "EULA and Privacy Policy not accepted"@,
            ServerDownloadError::DownloadFailed(s) => "Failed to download server: "@ + s@,
            ServerDownloadError::ZipReadFailed(s) => "Failed to read server zip: "@ + s@,
            ServerDownloadError::TempFileCreationFailed(s) => "Failed to create temporary file: "@
                + s@,
            ServerDownloadError::ExtractionFailed(s) => "Failed to extract server files: "@ + s@,
            ServerDownloadError::InvalidPath(s) => "Invalid download path: "@ + s@,
            ServerDownloadError::ServerAlreadyInstalled(s) => "Server version "@ + s@
                + " already installed"@,
        }
    }

    /// Human-readable description of the error.
    pub fn message(&self) -> (m: String)
        ensures
            m@ == self.message_spec(),
    {
        match self {
            ServerDownloadError::EulaAndPrivacyPolicyNotAccepted => {
                "EULA and Privacy Policy not accepted".to_owned()
            },
            ServerDownloadError::DownloadFailed(s) => "Failed to download server: "
                .to_owned()
                .concat(s.as_str()),
            ServerDownloadError::ZipReadFailed(s) => "Failed to read server zip: "
                .to_owned()
                .concat(s.as_str()),
            ServerDownloadError::TempFileCreationFailed(s) => "Failed to create temporary file: "
                .to_owned()
                .concat(s.as_str()),
            ServerDownloadError::ExtractionFailed(s) => "Failed to extract server files: "
                .to_owned()
                .concat(s.as_str()),
            ServerDownloadError::InvalidPath(s) => "Invalid download path: ".to_owned().concat(
                s.as_str(),
            ),
            ServerDownloadError::ServerAlreadyInstalled(s) => "Server version ".to_owned().concat(
                s.as_str(),
            ).concat(" already installed"),
        }
    }
}

/// Decide whether a download may proceed before any byte is fetched:
/// the EULA must be accepted, and an already-installed version is
/// refused unless a reinstall is forced.
pub fn download_gate(
    accepted_eula_and_privacy_policy: bool,
    already_installed: bool,
    force_reinstall: bool,
    version: &str,
) -> (r: Result<(), ServerDownloadError>)
    ensures
        r is Ok <==> accepted_eula_and_privacy_policy && (force_reinstall || !already_installed),
        !accepted_eula_and_privacy_policy ==> r == Result::<
            (),
            ServerDownloadError,
        >::Err(ServerDownloadError::EulaAndPrivacyPolicyNotAccepted),
        accepted_eula_and_privacy_policy && already_installed && !force_reinstall ==> (r matches Result::Err(
            ServerDownloadError::ServerAlreadyInstalled(v),
        ) && v@ == version@),
{
    if !accepted_eula_and_privacy_policy {
        Err(ServerDownloadError::EulaAndPrivacyPolicyNotAccepted)
    } else if already_installed && !force_reinstall {
        Err(ServerDownloadError::ServerAlreadyInstalled(version.to_owned()))
    } else {
        Ok(())
    }
}

/// The fixed prefix of every dedicated-server download URL.
pub open spec fn download_url_prefix() -> Seq<char> {
    "https://www.minecraft.net/bedrockdedicatedserver/bin-linux/bedrock-server-"@
}

/// The download URL for a server version: prefix, version, ".zip".
pub fn get_download_url(version: &str) -> (url: String)
    ensures
        url@ == download_url_prefix() + version@ + ".zip"@,
{
    "https://www.minecraft.net/bedrockdedicatedserver/bin-linux/bedrock-server-"
        .to_owned()
        .concat(version)
        .concat(".zip")
}

/// A character that may appear in a version number.
pub open spec fn version_char(c: char) -> bool {
    c == '.' || ('0' as u32 <= c as u32 && c as u32 <= '9' as u32)
}

/// The end of the run of version characters starting at `j`.
pub open spec fn digits_end(h: Seq<char>, j: int) -> int
    decreases h.len() - j,
{
    if 0 <= j < h.len() && version_char(h[j]) {
        digits_end(h, j + 1)
    } else {
        j
    }
}

/// After position `j`, the page holds a non-empty version number
/// followed by ".zip": the run of version characters from `j` ends with
/// a `.` that starts the literal ".zip".
pub open spec fn version_end_ok(h: Seq<char>, j: int) -> bool {
    let m = digits_end(h, j);
    m - 1 > j && h[m - 1] == '.' && m + 3 <= h.len() && h[m] == 'z' && h[m + 1] == 'i' && h[m + 2]
        == 'p'
}

/// The version number captured after position `j`.
pub open spec fn version_capture(h: Seq<char>, j: int) -> Seq<char> {
    h.subrange(j, digits_end(h, j) - 1)
}

/// A whole download URL, version number included, occurs at position `i`.
pub open spec fn version_url_at(h: Seq<char>, i: int) -> bool {
    contains_at(h, download_url_prefix(), i) && version_end_ok(h, i + download_url_prefix().len())
}

/// The version of the first download URL at or after position `i`.
pub open spec fn find_version_from(h: Seq<char>, i: int) -> Option<Seq<char>>
    decreases h.len() - i,
{
    if i < 0 || i >= h.len() || i + download_url_prefix().len() > h.len() {
        None
    } else if version_url_at(h, i) {
        Some(version_capture(h, i + download_url_prefix().len()))
    } else {
        find_version_from(h, i + 1)
    }
}

/// The version advertised by the download page: the capture of the
/// first download URL on it.
pub open spec fn latest_version_in(h: Seq<char>) -> Option<Seq<char>> {
    find_version_from(h, 0)
}

/// Version-character test for a single character.
fn is_version_char(c: char) -> (b: bool)
    ensures
        b == version_char(c),
{
    let u = c as u32;
    c == '.' || (48 <= u && u <= 57)
}

/// Extract the newest advertised server version from the text of the
/// download page: the version number of the first download URL in it.
pub fn extract_server_version(html: &str) -> (r: Option<String>)
    ensures
        match r {
            Some(v) => latest_version_in(html@) == Some(v@),
            None => latest_version_in(html@) is None,
        },
{
    let n = html.unicode_len();
    let prefix: &str = "https://www.minecraft.net/bedrockdedicatedserver/bin-linux/bedrock-server-";
    proof {
        reveal_strlit("https://www.minecraft.net/bedrockdedicatedserver/bin-linux/bedrock-server-");
    }
    let plen = prefix.unicode_len();
    if plen > n {
        return None;
    }
    let mut i: usize = 0;
    while i <= n - plen
        invariant
            n == html@.len(),
            prefix@ == download_url_prefix(),
            plen == download_url_prefix().len(),
            plen >= 1,
            plen <= n,
            i <= n - plen + 1,
            find_version_from(html@, 0) == find_version_from(html@, i as int),
        decreases n - i,
    {
        if crate::text::str_matches_at(html, prefix, i) {
            let j0 = i + plen;
            let mut m = j0;
            while m < n && is_version_char(html.get_char(m))
                invariant
                    n == html@.len(),
                    j0 <= m <= n,
                    digits_end(html@, j0 as int) == digits_end(html@, m as int),
                decreases n - m,
            {
                m += 1;
            }
            assert(digits_end(html@, j0 as int) == m);
            if m - j0 >= 2 && html.get_char(m - 1) == '.' && n - m >= 3 && html.get_char(m) == 'z'
                && html.get_char(m + 1) == 'i' && html.get_char(m + 2) == 'p' {
                assert(version_url_at(html@, i as int));
                let v = html.substring_char(j0, m - 1);
                return Some(v.to_owned());
            }
            assert(!version_url_at(html@, i as int));
        }
        i += 1;
    }
    None
}

} // verus!
