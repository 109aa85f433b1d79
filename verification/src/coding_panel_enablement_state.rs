use vstd::prelude::*;

use crate::remote_server::{RemoteServerSetupState, UnsupportedReason};

verus! {

/// What the Project Explorer can show for a remote session.
#[derive(Clone, Debug, PartialEq, Eq, Structural)]
pub enum RemoteSessionExplorerState {
    /// A remote-server-backed SSH session exists or is bootstrapping, so
    /// remote metadata may still arrive and Project Explorer should show
    /// loading until roots are registered.
    RemoteServerAvailable,
    /// The terminal is remote, but there is no remote-server-backed
    /// Project Explorer path for this session.
    RemoteServerUnavailable,
    /// The remote-server preinstall check classified the host as
    /// incompatible with the bundled remote server.
    RemoteServerUnsupported { reason: UnsupportedReason },
}

impl RemoteSessionExplorerState {
    /// A registered remote server makes the explorer available; otherwise an
    /// unsupported setup keeps its reason, and anything else is unavailable.
    pub fn from_remote_server_setup_state(
        has_remote_server: bool,
        setup_state: Option<&RemoteServerSetupState>,
    ) -> (state: Self)
        ensures
            has_remote_server ==> state == RemoteSessionExplorerState::RemoteServerAvailable,
            !has_remote_server ==> state == match setup_state {
                Some(RemoteServerSetupState::Unsupported { reason }) => {
                    RemoteSessionExplorerState::RemoteServerUnsupported { reason: *reason }
                },
                _ => RemoteSessionExplorerState::RemoteServerUnavailable,
            },
    {
        if has_remote_server {
            return Self::RemoteServerAvailable;
        }
        match setup_state {
            Some(RemoteServerSetupState::Unsupported { reason }) => Self::RemoteServerUnsupported {
                reason: reason.clone(),
            },
            _ => Self::RemoteServerUnavailable,
        }
    }
}

/// What the coding panel's file tree shows for the active session.
#[derive(Clone, Debug, PartialEq, Eq, Structural)]
pub enum CodingPanelEnablementState {
    Enabled,
    /// An SSH command has been detected at preexec time but the remote
    /// session has not finished bootstrapping yet. The file tree should
    /// show a loading state immediately to avoid flickering the stale
    /// local tree.
    PendingRemoteSession,
    /// An SSH command is running, but this terminal cannot bootstrap a
    /// remote-server-backed session. Do not show the stale local tree.
    PendingRemoteSessionUnavailable,
    /// The active session is on a remote host.
    ///
    /// `explorer_state` is `RemoteServerAvailable` when the session is
    /// registered with the remote server manager. In that state remote repo
    /// metadata may arrive and the file tree should show loading. Other
    /// states render an unavailable message without falling back to the
    /// stale local tree.
    RemoteSession { explorer_state: RemoteSessionExplorerState },
    UnsupportedSession,
    Disabled,
}

/// The panel state of a session: a remote session wins over an unsupported
/// one, which wins over the enabled setting.
pub open spec fn session_env_state(
    is_enabled: bool,
    is_remote: bool,
    is_unsupported_session: bool,
    explorer_state: RemoteSessionExplorerState,
) -> CodingPanelEnablementState {
    if is_remote {
        CodingPanelEnablementState::RemoteSession { explorer_state }
    } else if is_unsupported_session {
        CodingPanelEnablementState::UnsupportedSession
    } else if is_enabled {
        CodingPanelEnablementState::Enabled
    } else {
        CodingPanelEnablementState::Disabled
    }
}

/// The panel state once a pending SSH command is taken into account.
pub open spec fn pending_ssh_applied(
    state: CodingPanelEnablementState,
    has_pending_ssh: bool,
    can_bootstrap_pending_ssh: bool,
) -> CodingPanelEnablementState {
    if has_pending_ssh && state is Enabled {
        if can_bootstrap_pending_ssh {
            CodingPanelEnablementState::PendingRemoteSession
        } else {
            CodingPanelEnablementState::PendingRemoteSessionUnavailable
        }
    } else {
        state
    }
}

/// Taking the same pending SSH command into account twice changes nothing
/// more than taking it into account once.
pub proof fn lemma_pending_ssh_idempotent(
    state: CodingPanelEnablementState,
    has_pending_ssh: bool,
    can_bootstrap_pending_ssh: bool,
)
    ensures
        pending_ssh_applied(
            pending_ssh_applied(state, has_pending_ssh, can_bootstrap_pending_ssh),
            has_pending_ssh,
            can_bootstrap_pending_ssh,
        ) == pending_ssh_applied(state, has_pending_ssh, can_bootstrap_pending_ssh),
{
}

/// A pending state only ever comes from an enabled, local, supported session
/// with a pending SSH command; the loading state only where the remote
/// session can be bootstrapped.
pub proof fn lemma_pending_only_from_enabled_local_session(
    is_enabled: bool,
    is_remote: bool,
    is_unsupported_session: bool,
    explorer_state: RemoteSessionExplorerState,
    has_pending_ssh: bool,
    can_bootstrap_pending_ssh: bool,
)
    ensures
        ({
            let state = pending_ssh_applied(
                session_env_state(is_enabled, is_remote, is_unsupported_session, explorer_state),
                has_pending_ssh,
                can_bootstrap_pending_ssh,
            );
            &&& (state is PendingRemoteSession || state is PendingRemoteSessionUnavailable) <==> (
            is_enabled && !is_remote && !is_unsupported_session && has_pending_ssh)
            &&& state is PendingRemoteSession ==> can_bootstrap_pending_ssh
        }),
{
}

/// A remote session is always shown as remote, with the explorer state it
/// came with; an unsupported local session always as unsupported; only a
/// local, supported session is decided by the enabled setting.
pub proof fn lemma_session_priority(
    is_enabled: bool,
    is_remote: bool,
    is_unsupported_session: bool,
    explorer_state: RemoteSessionExplorerState,
)
    ensures
        is_remote ==> session_env_state(is_enabled, is_remote, is_unsupported_session, explorer_state)
            == (CodingPanelEnablementState::RemoteSession { explorer_state }),
        !is_remote && is_unsupported_session ==> session_env_state(
            is_enabled,
            is_remote,
            is_unsupported_session,
            explorer_state,
        ) == CodingPanelEnablementState::UnsupportedSession,
        !is_remote && !is_unsupported_session && is_enabled ==> session_env_state(
            is_enabled,
            is_remote,
            is_unsupported_session,
            explorer_state,
        ) == CodingPanelEnablementState::Enabled,
        !is_remote && !is_unsupported_session && !is_enabled ==> session_env_state(
            is_enabled,
            is_remote,
            is_unsupported_session,
            explorer_state,
        ) == CodingPanelEnablementState::Disabled,
        is_remote || is_unsupported_session ==> session_env_state(
            true,
            is_remote,
            is_unsupported_session,
            explorer_state,
        ) == session_env_state(false, is_remote, is_unsupported_session, explorer_state),
{
}

/// Without a pending SSH command every state is kept; every state but
/// `Enabled` is kept whatever is pending; an enabled panel with a pending
/// command becomes pending, loading only where bootstrap can follow.
pub proof fn lemma_pending_ssh_changes_only_enabled(
    state: CodingPanelEnablementState,
    has_pending_ssh: bool,
    can_bootstrap_pending_ssh: bool,
)
    ensures
        !has_pending_ssh ==> pending_ssh_applied(state, has_pending_ssh, can_bootstrap_pending_ssh)
            == state,
        state != CodingPanelEnablementState::Enabled ==> pending_ssh_applied(
            state,
            has_pending_ssh,
            can_bootstrap_pending_ssh,
        ) == state,
        state == CodingPanelEnablementState::Enabled && has_pending_ssh
            && can_bootstrap_pending_ssh ==> pending_ssh_applied(
            state,
            has_pending_ssh,
            can_bootstrap_pending_ssh,
        ) == CodingPanelEnablementState::PendingRemoteSession,
        state == CodingPanelEnablementState::Enabled && has_pending_ssh
            && !can_bootstrap_pending_ssh ==> pending_ssh_applied(
            state,
            has_pending_ssh,
            can_bootstrap_pending_ssh,
        ) == CodingPanelEnablementState::PendingRemoteSessionUnavailable,
{
}

impl CodingPanelEnablementState {
    /// A remote session wins over an unsupported one, which wins over the
    /// enabled setting.
    pub fn from_session_env(
        is_enabled: bool,
        is_remote: bool,
        is_unsupported_session: bool,
        remote_session_explorer_state: RemoteSessionExplorerState,
    ) -> (state: Self)
        ensures
            state == session_env_state(
                is_enabled,
                is_remote,
                is_unsupported_session,
                remote_session_explorer_state,
            ),
    {
        if is_remote {
            Self::RemoteSession { explorer_state: remote_session_explorer_state }
        } else if is_unsupported_session {
            Self::UnsupportedSession
        } else if is_enabled {
            Self::Enabled
        } else {
            Self::Disabled
        }
    }

    /// A pending SSH command turns an enabled panel into a pending one, which
    /// shows loading only where a remote session can be bootstrapped; every
    /// other state is kept.
    pub fn with_pending_ssh(self, has_pending_ssh: bool, can_bootstrap_pending_ssh: bool) -> (state:
        Self)
        ensures
            state == pending_ssh_applied(self, has_pending_ssh, can_bootstrap_pending_ssh),
    {
        if has_pending_ssh && matches!(self, Self::Enabled) {
            if can_bootstrap_pending_ssh {
                Self::PendingRemoteSession
            } else {
                Self::PendingRemoteSessionUnavailable
            }
        } else {
            self
        }
    }
}

} // verus!
