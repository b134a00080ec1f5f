use cord::assets::{AssetKind, Image};
use cord::config::{prepare_session, ActivityButton, Config, InitArgs, InitButtons};
use cord::session::{clear_outcome, ConnectFailure, PresencePlan, Session};
use cord::status::{last_error_or_success, Status};

fn s(x: &str) -> String {
    x.to_string()
}

fn args(client: &str, workspace: &str) -> InitArgs {
    InitArgs {
        client: s(client),
        image: None,
        editor_tooltip: s("The One True Editor"),
        idle_text: s("Idle"),
        idle_tooltip: s("💤"),
        idle_icon: None,
        viewing_text: s("Viewing {}"),
        editing_text: s("Editing {}"),
        file_browser_text: s("Browsing files in {}"),
        plugin_manager_text: s("Managing plugins in {}"),
        lsp_manager_text: s("Configuring LSP in {}"),
        vcs_text: s("Committing changes in {}"),
        workspace_text: s("Working on {}"),
        workspace_blacklist: vec![s("secret"), s("private")],
        workspace: s(workspace),
        buttons: None,
        checked_buttons: Vec::new(),
        swap_fields: false,
        swap_icons: true,
    }
}

fn connected(client: &str) -> Session {
    let mut session = Session::new();
    let (st, pending) = session.init(args(client, "cord"));
    assert_eq!(st, Status::Success);
    session.connection_established(pending.unwrap().config);
    session
}

fn config(session: &Session) -> &Config {
    session.config().unwrap()
}

#[test]
fn new_session_is_down_without_error() {
    let session = Session::new();
    assert!(!session.is_connected());
    assert_eq!(session.get_last_error(), Status::Success);
    assert!(session.config().is_none());
}

#[test]
fn last_error_defaults_to_success() {
    assert_eq!(last_error_or_success(None), Status::Success);
    assert_eq!(last_error_or_success(Some(Status::ReadFailed)), Status::ReadFailed);
}

#[test]
fn init_prepares_settings_and_connection() {
    let session = Session::new();
    let (st, pending) = session.init(args("neovim", "cord"));
    assert_eq!(st, Status::Success);
    let p = pending.unwrap();
    assert_eq!(p.client_id, 1219918880005165137);
    assert!(!p.blacklisted);
    let c = &p.config;
    assert!(!c.is_custom_client);
    assert_eq!(c.workspace, "cord");
    assert_eq!(c.viewing_text, "Viewing {}");
    assert!(c.swap_icons && !c.swap_fields);
    assert!(c.buttons.is_empty());
    assert_eq!(c.init_buttons.first_label, "");
    match &c.idle_icon {
        Image::Asset(k, n) => {
            assert_eq!(*k, AssetKind::Editor);
            assert_eq!(n, "idle");
        },
        _ => panic!("expected the idle asset"),
    }
    // The session changes only once the connection is reported.
    assert!(!session.is_connected());
}

#[test]
fn init_keeps_given_idle_icon_and_buttons() {
    let mut a = args("vim", "cord");
    a.idle_icon = Some(s("https://x/idle.png"));
    a.buttons = Some(InitButtons {
        first_label: s("Repo"),
        first_url: s("git"),
        second_label: s(""),
        second_url: s(""),
    });
    a.checked_buttons = vec![ActivityButton { label: s("Repo"), url: s("https://github.com/x/y") }];
    let p = prepare_session(a).ok().unwrap();
    match &p.config.idle_icon {
        Image::Text(t) => assert_eq!(t, "https://x/idle.png"),
        _ => panic!("expected the given icon"),
    }
    assert_eq!(p.config.buttons.len(), 1);
    assert_eq!(p.config.buttons[0].url, "https://github.com/x/y");
    assert_eq!(p.config.init_buttons.first_url, "git");
}

#[test]
fn init_reports_blacklisted_workspace_but_connects() {
    let session = Session::new();
    let (st, pending) = session.init(args("vim", "secret"));
    assert_eq!(st, Status::WorkspaceBlacklisted);
    assert!(pending.unwrap().blacklisted);
}

#[test]
fn init_refuses_unknown_client() {
    let session = Session::new();
    let (st, pending) = session.init(args("notepad", "cord"));
    assert_eq!(st, Status::InvalidClientId);
    assert!(pending.is_none());
}

#[test]
fn init_refuses_second_start() {
    let session = connected("vim");
    let (st, pending) = session.init(args("vim", "cord"));
    assert_eq!(st, Status::Uninitialized);
    assert!(pending.is_none());
}

#[test]
fn connection_failures_are_recorded() {
    let mut session = Session::new();
    session.connection_failed(ConnectFailure::Connect);
    assert_eq!(session.get_last_error(), Status::Success);
    session.connection_failed(ConnectFailure::Handshake);
    assert_eq!(session.get_last_error(), Status::HandshakeFailed);
    session.connection_failed(ConnectFailure::Read);
    assert_eq!(session.get_last_error(), Status::ReadFailed);
    assert!(!session.is_connected());
}

#[test]
fn update_presence_plans() {
    let down = Session::new();
    assert!(matches!(down.update_presence("rust"), PresencePlan::Skip));
    let up = connected("vim");
    assert!(matches!(up.update_presence("rust"), PresencePlan::Build));
    match up.update_presence("Cord.idle") {
        PresencePlan::Idle(p) => {
            assert_eq!(p.details, "Idle");
            assert_eq!(p.large_text, "💤");
            match p.large_image {
                Image::Asset(k, n) => {
                    assert_eq!(k, AssetKind::Editor);
                    assert_eq!(n, "idle");
                },
                _ => panic!("expected the idle asset"),
            }
        },
        _ => panic!("expected the idle presence"),
    }
}

#[test]
fn idle_without_idle_text_is_skipped() {
    let mut a = args("vim", "cord");
    a.idle_text = s("");
    let mut session = Session::new();
    let (_, pending) = session.init(a);
    session.connection_established(pending.unwrap().config);
    assert!(matches!(session.update_presence("Cord.idle"), PresencePlan::Skip));
    assert!(matches!(session.update_presence("lua"), PresencePlan::Build));
}

#[test]
fn clear_presence_answers() {
    assert_eq!(Session::new().clear_presence(), Some(Status::Uninitialized));
    assert_eq!(connected("vim").clear_presence(), None);
    assert_eq!(clear_outcome(true), Status::Success);
    assert_eq!(clear_outcome(false), Status::WriteFailed);
}

#[test]
fn disconnect_closes_once() {
    let mut session = connected("vim");
    assert!(session.is_connected());
    assert!(session.disconnect());
    assert!(!session.is_connected());
    assert!(session.config().is_none());
    assert!(!session.disconnect());
    assert_eq!(session.clear_presence(), Some(Status::Uninitialized));
}

#[test]
fn update_time_records_start() {
    let mut session = Session::new();
    session.update_time(1_700_000_000_000);
    assert_eq!(session.start_time, Some(1_700_000_000_000));
}

#[test]
fn set_workspace_reports_blacklist() {
    let mut down = Session::new();
    assert!(down.set_workspace(s("secret")));
    let mut session = connected("vim");
    assert!(session.set_workspace(s("other")));
    assert_eq!(config(&session).workspace, "other");
    assert!(!session.set_workspace(s("private")));
    assert_eq!(config(&session).workspace, "private");
}

#[test]
fn update_workspace_replaces_name_and_buttons() {
    let mut session = connected("vim");
    let buttons = vec![ActivityButton { label: s("Repo"), url: s("https://example.org") }];
    assert!(session.update_workspace(Some(s("project")), buttons));
    assert_eq!(config(&session).workspace, "project");
    assert_eq!(config(&session).buttons.len(), 1);
    assert!(session.update_workspace(None, Vec::new()));
    assert_eq!(config(&session).workspace, "project");
    assert_eq!(config(&session).buttons.len(), 1);
    assert!(!session.update_workspace(Some(s("secret")), Vec::new()));
    assert_eq!(config(&session).workspace, "secret");
    assert!(config(&session).buttons.is_empty());
    let mut down = Session::new();
    assert!(down.update_workspace(Some(s("secret")), Vec::new()));
}
