use vstd::prelude::*;

use crate::text::same_text;
use crate::transport::TransportError;

verus! {

/// A glibc release, as `major.minor`.
#[derive(Clone, Copy, Debug, PartialEq, Eq, Structural)]
pub struct GlibcVersion {
    pub major: u32,
    pub minor: u32,
}

impl GlibcVersion {
    pub fn new(major: u32, minor: u32) -> (version: Self)
        ensures
            version.major == major,
            version.minor == minor,
    {
        GlibcVersion { major, minor }
    }
}

/// Why the preinstall check found a host unable to run the bundled remote
/// server.
#[derive(Clone, Copy, Debug, PartialEq, Eq, Structural)]
pub enum UnsupportedReason {
    /// The host's glibc is older than the remote server needs.
    GlibcTooOld { detected: GlibcVersion, required: GlibcVersion },
}

/// Progress of setting up the remote server for an SSH session.
#[derive(Clone, Copy, Debug, PartialEq, Eq, Structural)]
pub enum RemoteServerSetupState {
    /// Looking for an installed remote server binary.
    Checking,
    /// Installing the remote server binary.
    Installing,
    /// The remote server is running.
    Ready,
    /// Setting up the remote server failed.
    Failed,
    /// The preinstall check classified the host as incompatible with the
    /// bundled remote server.
    Unsupported { reason: UnsupportedReason },
}

/// Whether a client and a remote server may work together: a client built
/// with a release tag needs a server that reports exactly that tag; a
/// development client without a tag accepts any server.
pub open spec fn versions_compatible(client_release_tag: Option<Seq<char>>, server_version: Seq<char>) -> bool {
    match client_release_tag {
        Some(tag) => tag == server_version,
        None => true,
    }
}

/// A client built with a release tag works with a server of that very
/// version, and with no other.
pub proof fn lemma_release_tag_matches_only_itself(tag: Seq<char>, server_version: Seq<char>)
    ensures
        versions_compatible(Some(tag), tag),
        versions_compatible(Some(tag), server_version) ==> server_version == tag,
{
}

/// A development client without a release tag works with every server.
pub proof fn lemma_untagged_client_accepts_every_server(server_version: Seq<char>)
    ensures
        versions_compatible(None, server_version),
{
}

/// Decides whether the remote server that reports `server_version` may serve
/// a client built with `client_release_tag`.
pub fn version_is_compatible(client_release_tag: Option<&str>, server_version: &str) -> (compatible: bool)
    ensures
        compatible == versions_compatible(
            match client_release_tag {
                Some(t) => Some(t@),
                None => None,
            },
            server_version@,
        ),
{
    match client_release_tag {
        Some(tag) => same_text(tag, server_version),
        None => true,
    }
}

/// After looking for an installed binary, the preinstall check runs unless a
/// usable binary was found.
pub fn should_run_preinstall_after_binary_check(binary_check: &Result<bool, TransportError>) -> (run: bool)
    ensures
        run == (*binary_check != Ok::<bool, TransportError>(true)),
{
    match binary_check {
        Ok(found) => !*found,
        Err(_) => true,
    }
}

} // verus!
