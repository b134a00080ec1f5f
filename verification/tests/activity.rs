use cord::activity::{activity_fields, activity_of};
use cord::config::{check_buttons, ActivityButton, InitButtons};
use cord::session::Session;
use cord::assets::{AssetKind, Image};
use cord::config::{prepare_session, Config, InitArgs};
use cord::presence::{plain_presence, Presence, PresenceArgs};
use cord::assets::Filetype;

fn s(x: &str) -> String {
    x.to_string()
}

fn config(swap_fields: bool, swap_icons: bool, workspace: &str) -> Config {
    let args = InitArgs {
        client: s("vim"),
        image: None,
        editor_tooltip: s("Vim"),
        idle_text: s("Idle"),
        idle_tooltip: s(""),
        idle_icon: None,
        viewing_text: s("Viewing {}"),
        editing_text: s("Editing {}"),
        file_browser_text: s("Browsing {}"),
        plugin_manager_text: s("Plugins {}"),
        lsp_manager_text: s("LSP {}"),
        vcs_text: s("Git {}"),
        workspace_text: s("In {}"),
        workspace_blacklist: Vec::new(),
        workspace: s(workspace),
        buttons: None,
        checked_buttons: Vec::new(),
        swap_fields,
        swap_icons,
    };
    prepare_session(args).ok().unwrap().config
}

fn presence() -> Presence {
    Presence { details: s("Editing a.rs"), large_image: Image::Text(s("https://x/rs.png")), large_text: s("Rust") }
}

fn text_of(i: &Image) -> String {
    match i {
        Image::Text(t) => t.clone(),
        Image::Asset(k, n) => format!("{}/{}", k.name(), n),
    }
}

#[test]
fn fields_without_swaps() {
    let a = activity_fields(&config(false, false, "cord"), presence());
    assert_eq!(a.details, "Editing a.rs");
    assert_eq!(a.state, "In cord");
    assert_eq!(text_of(&a.large_image), "https://x/rs.png");
    assert_eq!(a.large_text, "Rust");
    assert_eq!(text_of(&a.small_image), "editor/vim");
    assert_eq!(a.small_text, "Vim");
}

#[test]
fn fields_with_swaps() {
    let a = activity_fields(&config(true, true, "cord"), presence());
    assert_eq!(a.details, "In cord");
    assert_eq!(a.state, "Editing a.rs");
    assert_eq!(text_of(&a.large_image), "editor/vim");
    assert_eq!(a.large_text, "Vim");
    assert_eq!(text_of(&a.small_image), "https://x/rs.png");
    assert_eq!(a.small_text, "Rust");
}

#[test]
fn no_workspace_no_state() {
    let a = activity_fields(&config(false, false, ""), presence());
    assert_eq!(a.state, "");
}

fn buffer(filename: &str, filetype: &str, cursor: Option<&str>) -> PresenceArgs {
    PresenceArgs {
        filename: s(filename),
        filetype: s(filetype),
        cursor_position: cursor.map(s),
        problem_count: 0,
        is_read_only: false,
    }
}

#[test]
fn plain_presence_without_table_entry() {
    let p = plain_presence(&config(false, false, "cord"), &buffer("main.rs", "rust", Some("1:2")), None);
    assert_eq!(p.details, "Editing main.rs:1:2");
    assert_eq!(text_of(&p.large_image), "rust");
    assert_eq!(p.large_text, "");
    let p = plain_presence(&config(false, false, "cord"), &buffer("", "lua", None), None);
    assert_eq!(p.details, "Editing lua file");
}

#[test]
fn plain_presence_with_table_entries() {
    let c = config(false, false, "cord");
    let p = plain_presence(&c, &buffer("x.rs", "rust", None), Some(&Filetype::Language(s("rust"), s("Rust"))));
    assert_eq!(p.details, "Editing x.rs");
    assert_eq!(text_of(&p.large_image), "language/rust");
    assert_eq!(p.large_text, "Rust");
    let p = plain_presence(&c, &buffer("", "oil", None), Some(&Filetype::FileBrowser(s("oil"), s("Oil"))));
    assert_eq!(p.details, "Browsing Oil");
    match p.large_image {
        Image::Asset(k, n) => {
            assert_eq!(k, AssetKind::FileBrowser);
            assert_eq!(n, "oil");
        },
        _ => panic!("expected an asset"),
    }
}

#[test]
fn activity_carries_timer_and_buttons() {
    let mut c = config(false, false, "cord");
    c.buttons = vec![ActivityButton { label: s("Repo"), url: s("https://example.org") }];
    let a = activity_of(&c, Some(42), presence());
    assert_eq!(a.start_time, Some(42));
    assert_eq!(a.buttons.len(), 1);
    assert_eq!(a.buttons[0].label, "Repo");
    assert_eq!(a.buttons[0].url, "https://example.org");
    assert_eq!(a.fields.details, "Editing a.rs");
    let a = activity_of(&c, None, presence());
    assert_eq!(a.start_time, None);
}

#[test]
fn session_activity_uses_recorded_timer() {
    let mut session = Session::new();
    assert!(session.activity_of(presence()).is_none());
    session.update_time(7);
    session.connection_established(config(false, false, "cord"));
    session.set_workspace(s("other"));
    let a = session.activity_of(presence()).unwrap();
    assert_eq!(a.start_time, Some(7));
    assert_eq!(a.fields.state, "In other");
}

#[test]
fn plain_update_needs_a_session() {
    let mut session = Session::new();
    assert!(session.plain_update(&buffer("a.rs", "rust", None), None).is_none());
    session.connection_established(config(false, false, "cord"));
    let p = session.plain_update(&buffer("a.rs", "rust", None), None).unwrap();
    assert_eq!(p.details, "Editing a.rs");
    assert_eq!(text_of(&p.large_image), "rust");
}

#[test]
fn buttons_are_checked() {
    let b = InitButtons { first_label: s("Repo"), first_url: s("git"), second_label: s("Site"), second_url: s("https://x.org") };
    let r = check_buttons(&b, Some(s("https://github.com/u/r")));
    assert_eq!(r.len(), 2);
    assert_eq!(r[0].url, "https://github.com/u/r");
    assert_eq!(r[1].label, "Site");
    let r = check_buttons(&b, None);
    assert_eq!(r.len(), 1);
    assert_eq!(r[0].label, "Site");
    let b = InitButtons { first_label: s(""), first_url: s("https://a"), second_label: s("B"), second_url: s("") };
    assert!(check_buttons(&b, None).is_empty());
}
