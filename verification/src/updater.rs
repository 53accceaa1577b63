//! Self-update: where a release comes from, which member of the release archive
//! is the agent, and how the downloaded checksum is read.

use std::io::Read;
use vstd::prelude::*;

use crate::text::{opt_text, str_equal};

verus! {

/// An offer of a new release: its version and, optionally, where to fetch it.
pub struct UpdateOffer {
    pub target_version: Option<String>,
    pub download_url: Option<String>,
    pub checksum_url: Option<String>,
}

/// Where to fetch a release archive and its checksum.
pub struct ReleaseUrls {
    pub download_url: String,
    pub checksum_url: String,
}

/// The repository that releases come from when the offer does not say.
pub const DEFAULT_GITHUB_REPO: &'static str = "Guardian-Parental-Controls/agent-linux";

/// The repository that releases come from when the offer does not say.
pub open spec fn default_repo() -> Seq<char> {
    "Guardian-Parental-Controls/agent-linux"@
}

/// The build target of an architecture that releases are published for.
pub open spec fn target_triple(arch: Seq<char>) -> Option<Seq<char>> {
    if arch == "x86_64"@ {
        Some("x86_64-unknown-linux-gnu"@)
    } else if arch == "aarch64"@ {
        Some("aarch64-unknown-linux-gnu"@)
    } else {
        None
    }
}

/// The name of the release archive for a build target.
pub open spec fn asset_name(target: Seq<char>) -> Seq<char> {
    "guardian-agent-"@ + target + ".tar.gz"@
}

/// The download address of a file of a release of the default repository.
pub open spec fn release_url(version: Seq<char>, file: Seq<char>) -> Seq<char> {
    "https://github.com/"@ + default_repo() + "/releases/download/"@ + version + "/"@ + file
}

/// Where an offer's release is fetched from, given whether its version is a valid
/// release version, the machine's architecture, and whether the default repository
/// is valid: the offer's own addresses when it gives both, else the default
/// repository's archive for the architecture and its `.sha256` checksum.
pub open spec fn update_plan(
    target_version: Option<Seq<char>>,
    download_url: Option<Seq<char>>,
    checksum_url: Option<Seq<char>>,
    version_valid: bool,
    arch: Seq<char>,
    repo_valid: bool,
) -> Result<(Seq<char>, Seq<char>), Seq<char>> {
    match target_version {
        None => Err("Missing target version"@),
        Some(v) => if !version_valid {
            Err("Refusing auto-update: invalid release version '"@ + v + "'"@)
        } else {
            match (download_url, checksum_url) {
                (Some(d), Some(c)) => Ok((d, c)),
                _ => match target_triple(arch) {
                    None => Err("Unsupported architecture for auto-update: "@ + arch),
                    Some(t) => if !repo_valid {
                        Err("Refusing auto-update: invalid default GitHub repository"@)
                    } else {
                        Ok(
                            (
                                release_url(v, asset_name(t)),
                                release_url(v, asset_name(t) + ".sha256"@),
                            ),
                        )
                    },
                },
            }
        },
    }
}

fn release_url_text(version: &str, file: &str) -> (r: String)
    ensures
        r@ == release_url(version@, file@),
{
    let mut r = String::from_str("https://github.com/");
    r.append(DEFAULT_GITHUB_REPO);
    r.append("/releases/download/");
    r.append(version);
    r.append("/");
    r.append(file);
    r
}

/// Decides where the offered release is fetched from. `version_valid` says whether
/// the offered version is a valid release version, `arch` is the machine's
/// architecture, and `repo_valid` says whether the default repository is valid.
pub fn plan_update(offer: &UpdateOffer, version_valid: bool, arch: &str, repo_valid: bool) -> (r: Result<
    ReleaseUrls,
    String,
>)
    ensures
        match (
            r,
            update_plan(
                opt_text(offer.target_version),
                opt_text(offer.download_url),
                opt_text(offer.checksum_url),
                version_valid,
                arch@,
                repo_valid,
            ),
        ) {
            (Ok(u), Ok((d, c))) => u.download_url@ == d && u.checksum_url@ == c,
            (Err(a), Err(b)) => a@ == b,
            _ => false,
        },
{
    let version = match &offer.target_version {
        None => return Err(String::from_str("Missing target version")),
        Some(v) => v,
    };
    if !version_valid {
        let mut m = String::from_str("Refusing auto-update: invalid release version '");
        m.append(version.as_str());
        m.append("'");
        return Err(m);
    }
    match (&offer.download_url, &offer.checksum_url) {
        (Some(d), Some(c)) => {
            return Ok(ReleaseUrls { download_url: d.clone(), checksum_url: c.clone() });
        },
        _ => {},
    }
    let target = if str_equal(arch, "x86_64") {
        "x86_64-unknown-linux-gnu"
    } else if str_equal(arch, "aarch64") {
        "aarch64-unknown-linux-gnu"
    } else {
        let mut m = String::from_str("Unsupported architecture for auto-update: ");
        m.append(arch);
        return Err(m);
    };
    if !repo_valid {
        return Err(String::from_str("Refusing auto-update: invalid default GitHub repository"));
    }
    let mut asset = String::from_str("guardian-agent-");
    asset.append(target);
    asset.append(".tar.gz");
    let mut checksum_name = asset.clone();
    checksum_name.append(".sha256");
    Ok(
        ReleaseUrls {
            download_url: release_url_text(version.as_str(), asset.as_str()),
            checksum_url: release_url_text(version.as_str(), checksum_name.as_str()),
        },
    )
}

/// What reading one member of a release archive gives: its file name (the last
/// component of its path, when it has one that is valid UTF-8), or the error of a
/// member that could not be read or whose path could not be read.
pub enum ArchiveMember {
    Named(Option<String>),
    BadEntry(String),
    BadPath(String),
}

/// A member of a release archive, as text.
pub enum ArchiveMemberSpec {
    Named(Option<Seq<char>>),
    BadEntry(Seq<char>),
    BadPath(Seq<char>),
}

impl View for ArchiveMember {
    type V = ArchiveMemberSpec;

    open spec fn view(&self) -> ArchiveMemberSpec {
        match self {
            ArchiveMember::Named(n) => ArchiveMemberSpec::Named(opt_text(*n)),
            ArchiveMember::BadEntry(e) => ArchiveMemberSpec::BadEntry(e@),
            ArchiveMember::BadPath(e) => ArchiveMemberSpec::BadPath(e@),
        }
    }
}

/// The members of a gzip-compressed tar archive, in order, as the `tar` and `flate2`
/// crates read them (up to and including the first member that cannot be read), or
/// the error of opening the archive.
pub uninterp spec fn archive_members(archive: Seq<u8>) -> Result<Seq<ArchiveMemberSpec>, Seq<char>>;

/// The contents of member `index` of a gzip-compressed tar archive, as the `tar` and
/// `flate2` crates read them, or the error of reading them.
pub uninterp spec fn archive_member_data(archive: Seq<u8>, index: nat) -> Result<Seq<u8>, Seq<char>>;

/// Lists the members of the archive with `tar::Archive::entries` over a
/// `flate2::read::GzDecoder`, taking for each its path's file name (`Path::file_name`,
/// kept when it is valid UTF-8). The contract claims that the result is
/// `archive_members` of the bytes; what that is, is left to the crates.
#[verifier::external_body]
fn list_archive_members(archive: &Vec<u8>) -> (r: Result<Vec<ArchiveMember>, String>)
    ensures
        match (r, archive_members(archive@)) {
            (Ok(v), Ok(s)) => v@.map_values(|m: ArchiveMember| m@) == s,
            (Err(e), Err(s)) => e@ == s,
            _ => false,
        },
{
    let mut reader = tar::Archive::new(flate2::read::GzDecoder::new(archive.as_slice()));
    let entries = reader.entries().map_err(|error| error.to_string())?;
    let mut members = Vec::new();
    for entry in entries {
        members.push(match entry {
            Err(error) => ArchiveMember::BadEntry(error.to_string()),
            Ok(entry) => match entry.path() {
                Err(error) => ArchiveMember::BadPath(error.to_string()),
                Ok(path) => ArchiveMember::Named(path.file_name().and_then(|n| n.to_str()).map(|n| n.to_string())),
            },
        });
    }
    Ok(members)
}

/// Reads the contents of member `index` of the archive (`tar::Archive::entries`
/// over a `flate2::read::GzDecoder`, then `Read::read_to_end` on that entry). The
/// contract claims that the result is `archive_member_data` of the bytes and index.
#[verifier::external_body]
fn read_archive_member(archive: &Vec<u8>, index: usize) -> (r: Result<Vec<u8>, String>)
    ensures
        match (r, archive_member_data(archive@, index as nat)) {
            (Ok(v), Ok(s)) => v@ == s,
            (Err(e), Err(s)) => e@ == s,
            _ => false,
        },
{
    let mut reader = tar::Archive::new(flate2::read::GzDecoder::new(archive.as_slice()));
    let mut entries = reader.entries().map_err(|error| error.to_string())?;
    let mut entry = entries
        .nth(index)
        .ok_or(std::io::Error::from(std::io::ErrorKind::UnexpectedEof))
        .and_then(|entry| entry)
        .map_err(|error| error.to_string())?;
    let mut data = Vec::new();
    entry.read_to_end(&mut data).map_err(|error| error.to_string())?;
    Ok(data)
}

/// The file name of the agent's executable in a release archive.
pub open spec fn agent_binary_name() -> Seq<char> {
    "guardian-agent"@
}

/// The first member from `i` on that is the agent's executable, or the error of the
/// first member before it that could not be read.
pub open spec fn binary_member_from(members: Seq<ArchiveMemberSpec>, i: nat) -> Result<
    Option<nat>,
    Seq<char>,
>
    decreases members.len() - i,
{
    if i >= members.len() {
        Ok(None)
    } else {
        match members[i as int] {
            ArchiveMemberSpec::BadEntry(e) => Err("Failed to parse archive entry: "@ + e),
            ArchiveMemberSpec::BadPath(e) => Err("Failed to get entry path: "@ + e),
            ArchiveMemberSpec::Named(n) => if n == Some(agent_binary_name()) {
                Ok(Some(i))
            } else {
                binary_member_from(members, i + 1)
            },
        }
    }
}

/// Finds the member of a release archive that is the agent's executable: the first
/// member named `guardian-agent`, unless a member before it could not be read.
pub fn select_binary_member(members: &Vec<ArchiveMember>) -> (r: Result<Option<usize>, String>)
    ensures
        match (r, binary_member_from(members@.map_values(|m: ArchiveMember| m@), 0)) {
            (Ok(Some(i)), Ok(Some(j))) => i == j,
            (Ok(None), Ok(None)) => true,
            (Err(a), Err(b)) => a@ == b,
            _ => false,
        },
{
    let ghost s = members@.map_values(|m: ArchiveMember| m@);
    let mut i: usize = 0;
    while i < members.len()
        invariant
            i <= members@.len(),
            s == members@.map_values(|m: ArchiveMember| m@),
            binary_member_from(s, 0) == binary_member_from(s, i as nat),
        decreases members.len() - i,
    {
        assert(s[i as int] == members@[i as int]@);
        match &members[i] {
            ArchiveMember::BadEntry(e) => {
                let mut m = String::from_str("Failed to parse archive entry: ");
                m.append(e.as_str());
                return Err(m);
            },
            ArchiveMember::BadPath(e) => {
                let mut m = String::from_str("Failed to get entry path: ");
                m.append(e.as_str());
                return Err(m);
            },
            ArchiveMember::Named(n) => {
                let found = match n {
                    Some(name) => str_equal(name.as_str(), "guardian-agent"),
                    None => false,
                };
                if found {
                    return Ok(Some(i));
                }
            },
        }
        i = i + 1;
    }
    Ok(None)
}

/// The agent's executable taken from a release archive, or why it cannot be.
pub open spec fn agent_binary_of(archive: Seq<u8>) -> Result<Seq<u8>, Seq<char>> {
    match archive_members(archive) {
        Err(e) => Err("Failed to read archive entries: "@ + e),
        Ok(members) => match binary_member_from(members, 0) {
            Err(e) => Err(e),
            Ok(None) => Err("Archive did not contain 'guardian-agent' binary"@),
            Ok(Some(i)) => match archive_member_data(archive, i) {
                Err(e) => Err("Failed to read binary from archive: "@ + e),
                Ok(data) => Ok(data),
            },
        },
    }
}

/// Takes the agent's executable out of a gzip-compressed tar release archive.
pub fn extract_agent_binary(archive: &Vec<u8>) -> (r: Result<Vec<u8>, String>)
    ensures
        match (r, agent_binary_of(archive@)) {
            (Ok(v), Ok(s)) => v@ == s,
            (Err(a), Err(b)) => a@ == b,
            _ => false,
        },
{
    let members = match list_archive_members(archive) {
        Ok(m) => m,
        Err(e) => {
            let mut m = String::from_str("Failed to read archive entries: ");
            m.append(e.as_str());
            return Err(m);
        },
    };
    match select_binary_member(&members) {
        Err(e) => Err(e),
        Ok(None) => Err(String::from_str("Archive did not contain 'guardian-agent' binary")),
        Ok(Some(i)) => match read_archive_member(archive, i) {
            Ok(data) => Ok(data),
            Err(e) => {
                let mut m = String::from_str("Failed to read binary from archive: ");
                m.append(e.as_str());
                Err(m)
            },
        },
    }
}

/// The text of the error that `String::from_utf8` gives for bytes that are not valid
/// UTF-8, as its `Display` writes it (it speaks of where the first bad sequence starts
/// and how long it is, so it depends on the bytes alone).
pub uninterp spec fn utf8_error_text(bytes: Seq<u8>) -> Seq<char>;

/// Reads bytes as UTF-8 text (`String::from_utf8`): the text they encode when they
/// are valid UTF-8, else the decoder's error, written out as `utf8_error_text` of the
/// bytes. What that text says is left to std.
#[verifier::external_body]
fn utf8_text(bytes: Vec<u8>) -> (r: Result<String, String>)
    ensures
        match r {
            Ok(s) => vstd::utf8::valid_utf8(bytes@) && s@ == vstd::utf8::decode_utf8(bytes@),
            Err(e) => !vstd::utf8::valid_utf8(bytes@) && e@ == utf8_error_text(bytes@),
        },
{
    String::from_utf8(bytes).map_err(|error| error.to_string())
}

/// The message of a release checksum that is not valid UTF-8, given the decoder's error.
pub open spec fn checksum_error_message(reason: Seq<char>) -> Seq<char> {
    "Release checksum is not valid UTF-8: "@ + reason
}

/// What a decoded release checksum becomes: its text when it decoded, else the
/// decoder's error behind the checksum's own message.
pub fn checksum_from_decoded(decoded: Result<String, String>) -> (r: Result<String, String>)
    ensures
        match (decoded, r) {
            (Ok(s), Ok(t)) => t@ == s@,
            (Err(e), Err(m)) => m@ == checksum_error_message(e@),
            _ => false,
        },
{
    match decoded {
        Ok(s) => Ok(s),
        Err(e) => {
            let mut m = String::from_str("Release checksum is not valid UTF-8: ");
            m.append(e.as_str());
            Err(m)
        },
    }
}

/// Reads a downloaded release checksum as text.
pub fn decode_checksum(bytes: Vec<u8>) -> (r: Result<String, String>)
    ensures
        match r {
            Ok(s) => vstd::utf8::valid_utf8(bytes@) && s@ == vstd::utf8::decode_utf8(bytes@),
            Err(m) => !vstd::utf8::valid_utf8(bytes@) && m@ == checksum_error_message(
                utf8_error_text(bytes@),
            ),
        },
{
    let decoded = utf8_text(bytes);
    checksum_from_decoded(decoded)
}


/// Where the offer does not give both addresses, the checksum is fetched from the
/// archive's own address with `.sha256` appended; where it gives both, they are used as given.
pub proof fn law_checksum_sits_beside_archive(
    target_version: Option<Seq<char>>,
    download_url: Option<Seq<char>>,
    checksum_url: Option<Seq<char>>,
    version_valid: bool,
    arch: Seq<char>,
    repo_valid: bool,
)
    ensures
        ({
            let plan = update_plan(
                target_version,
                download_url,
                checksum_url,
                version_valid,
                arch,
                repo_valid,
            );
            &&& (plan is Ok && !(download_url is Some && checksum_url is Some)) ==> plan->Ok_0.1
                == plan->Ok_0.0 + ".sha256"@
            &&& (plan is Ok && download_url is Some && checksum_url is Some) ==> plan->Ok_0 == (
            download_url->Some_0, checksum_url->Some_0)
            &&& plan is Ok ==> target_version is Some && version_valid
        }),
{
    let plan = update_plan(target_version, download_url, checksum_url, version_valid, arch, repo_valid);
    if plan is Ok && !(download_url is Some && checksum_url is Some) {
        let v = target_version->Some_0;
        let t = target_triple(arch)->Some_0;
        assert(release_url(v, asset_name(t) + ".sha256"@) =~= release_url(v, asset_name(t))
            + ".sha256"@);
    }
}

} // verus!
