use nowarp::coding_panel_enablement_state::{CodingPanelEnablementState, RemoteSessionExplorerState};
use nowarp::remote_server::{GlibcVersion, RemoteServerSetupState, UnsupportedReason};

#[test]
fn pending_ssh_only_shows_loading_when_bootstrap_can_follow() {
    assert_eq!(
        CodingPanelEnablementState::Enabled.with_pending_ssh(true, true),
        CodingPanelEnablementState::PendingRemoteSession
    );

    assert_eq!(
        CodingPanelEnablementState::Enabled.with_pending_ssh(true, false),
        CodingPanelEnablementState::PendingRemoteSessionUnavailable
    );
}

#[test]
fn pending_ssh_does_not_override_non_enabled_states() {
    let remote = CodingPanelEnablementState::RemoteSession {
        explorer_state: RemoteSessionExplorerState::RemoteServerUnsupported {
            reason: UnsupportedReason::GlibcTooOld {
                detected: GlibcVersion::new(2, 28),
                required: GlibcVersion::new(2, 31),
            },
        },
    };
    assert_eq!(remote.clone().with_pending_ssh(true, true), remote);

    assert_eq!(
        CodingPanelEnablementState::Disabled.with_pending_ssh(true, true),
        CodingPanelEnablementState::Disabled
    );
}

#[test]
fn remote_explorer_state_preserves_unsupported_reason() {
    let reason = UnsupportedReason::GlibcTooOld {
        detected: GlibcVersion::new(2, 28),
        required: GlibcVersion::new(2, 31),
    };
    let setup_state = RemoteServerSetupState::Unsupported {
        reason: reason.clone(),
    };

    assert_eq!(
        RemoteSessionExplorerState::from_remote_server_setup_state(false, Some(&setup_state)),
        RemoteSessionExplorerState::RemoteServerUnsupported { reason }
    );

    assert_eq!(
        RemoteSessionExplorerState::from_remote_server_setup_state(true, Some(&setup_state)),
        RemoteSessionExplorerState::RemoteServerAvailable
    );
}

#[test]
fn pending_ssh_without_pending_command_keeps_enabled() {
    assert_eq!(
        CodingPanelEnablementState::Enabled.with_pending_ssh(false, true),
        CodingPanelEnablementState::Enabled
    );
    assert_eq!(
        CodingPanelEnablementState::UnsupportedSession.with_pending_ssh(true, false),
        CodingPanelEnablementState::UnsupportedSession
    );
}

#[test]
fn pending_ssh_applied_twice_equals_once() {
    let once = CodingPanelEnablementState::Enabled.with_pending_ssh(true, false);
    let twice = once.clone().with_pending_ssh(true, false);
    assert_eq!(once, twice);
}

#[test]
fn explorer_state_without_server_or_unsupported_setup_is_unavailable() {
    assert_eq!(
        RemoteSessionExplorerState::from_remote_server_setup_state(false, None),
        RemoteSessionExplorerState::RemoteServerUnavailable
    );
    assert_eq!(
        RemoteSessionExplorerState::from_remote_server_setup_state(
            false,
            Some(&RemoteServerSetupState::Installing)
        ),
        RemoteSessionExplorerState::RemoteServerUnavailable
    );
    assert_eq!(
        RemoteSessionExplorerState::from_remote_server_setup_state(true, None),
        RemoteSessionExplorerState::RemoteServerAvailable
    );
}

#[test]
fn session_env_remote_wins_over_unsupported_and_enabled() {
    let explorer = RemoteSessionExplorerState::RemoteServerAvailable;
    assert_eq!(
        CodingPanelEnablementState::from_session_env(true, true, true, explorer.clone()),
        CodingPanelEnablementState::RemoteSession {
            explorer_state: explorer.clone()
        }
    );
    assert_eq!(
        CodingPanelEnablementState::from_session_env(true, false, true, explorer.clone()),
        CodingPanelEnablementState::UnsupportedSession
    );
    assert_eq!(
        CodingPanelEnablementState::from_session_env(true, false, false, explorer.clone()),
        CodingPanelEnablementState::Enabled
    );
    assert_eq!(
        CodingPanelEnablementState::from_session_env(false, false, false, explorer),
        CodingPanelEnablementState::Disabled
    );
}

#[test]
fn pending_loading_only_for_enabled_local_session() {
    let explorer = RemoteSessionExplorerState::RemoteServerUnavailable;
    let remote = CodingPanelEnablementState::from_session_env(true, true, false, explorer.clone());
    assert!(matches!(
        remote.with_pending_ssh(true, true),
        CodingPanelEnablementState::RemoteSession { .. }
    ));
    let local = CodingPanelEnablementState::from_session_env(true, false, false, explorer);
    assert_eq!(
        local.with_pending_ssh(true, true),
        CodingPanelEnablementState::PendingRemoteSession
    );
}
