use cord::assets::{AssetKind, AssetType, Filetype, Image};
use cord::config::{prepare_session, Config, InitArgs};
use cord::presence::{asset_presence, resolve_large_image, AssetArgs, Presence, PresenceArgs};
use cord::session::Session;

fn s(x: &str) -> String {
    x.to_string()
}

fn init_args(client: &str) -> InitArgs {
    InitArgs {
        client: s(client),
        image: None,
        editor_tooltip: s("Editor"),
        idle_text: s("Idle"),
        idle_tooltip: s("Idle tip"),
        idle_icon: None,
        viewing_text: s("Viewing {}"),
        editing_text: s("Editing {}"),
        file_browser_text: s("Browsing files in {}"),
        plugin_manager_text: s("Managing plugins in {}"),
        lsp_manager_text: s("Configuring LSP in {}"),
        vcs_text: s("Committing changes in {}"),
        workspace_text: s("Working on {}"),
        workspace_blacklist: Vec::new(),
        workspace: s("cord"),
        buttons: None,
        checked_buttons: Vec::new(),
        swap_fields: false,
        swap_icons: false,
    }
}

fn config() -> Config {
    prepare_session(init_args("neovim")).ok().unwrap().config
}

fn buffer(filename: &str, filetype: &str, cursor: Option<&str>, read_only: bool) -> PresenceArgs {
    PresenceArgs {
        filename: s(filename),
        filetype: s(filetype),
        cursor_position: cursor.map(s),
        problem_count: 0,
        is_read_only: read_only,
    }
}

fn given(name: &str, default_name: &str, icon: &str, tooltip: &str) -> AssetArgs {
    AssetArgs { name: s(name), default_name: s(default_name), icon: s(icon), tooltip: s(tooltip) }
}

fn asset_of(i: &Image) -> (AssetKind, String) {
    match i {
        Image::Asset(k, n) => (*k, n.clone()),
        Image::Text(t) => panic!("expected an asset, got text {:?}", t),
    }
}

fn text_of(i: &Image) -> String {
    match i {
        Image::Text(t) => t.clone(),
        Image::Asset(k, n) => panic!("expected text, got asset {:?} {:?}", k, n),
    }
}

fn show(a: &AssetArgs, r: &PresenceArgs, ft: Option<&Filetype>, at: Option<AssetType>) -> Option<Presence> {
    asset_presence(&config(), a, r, ft, at)
}

#[test]
fn language_entry_with_cursor() {
    let ft = Filetype::Language(s("rust"), s("Rust"));
    let p = show(&given("", "", "", ""), &buffer("main.rs", "rust", Some("10:5"), false), Some(&ft), None).unwrap();
    assert_eq!(p.details, "Editing main.rs:10:5");
    assert_eq!(asset_of(&p.large_image), (AssetKind::Language, s("rust")));
    assert_eq!(p.large_text, "Rust");
}

#[test]
fn language_entry_shown_names() {
    let ft = Filetype::Language(s("lua"), s("Lua"));
    let p = show(&given("scratch", "", "", ""), &buffer("", "lua", None, true), Some(&ft), None).unwrap();
    assert_eq!(p.details, "Viewing scratch");
    let p = show(&given("", "Cord.new", "", ""), &buffer("", "lua", None, false), Some(&ft), None).unwrap();
    assert_eq!(p.details, "Editing a new file");
    let p = show(&given("", "[No Name]", "", ""), &buffer("", "lua", None, false), Some(&ft), None).unwrap();
    assert_eq!(p.details, "Editing lua file");
}

#[test]
fn language_entry_given_icon_and_tooltip_win() {
    let ft = Filetype::Language(s("lua"), s("Lua"));
    let p = show(&given("", "", "my_icon", "My tip"), &buffer("init.lua", "lua", None, false), Some(&ft), None)
        .unwrap();
    assert_eq!(text_of(&p.large_image), "my_icon");
    assert_eq!(p.large_text, "My tip");
}

#[test]
fn tool_entries_use_their_templates() {
    let r = buffer("", "oil", None, false);
    let p = show(&given("", "", "", ""), &r, Some(&Filetype::FileBrowser(s("oil"), s("Oil"))), None).unwrap();
    assert_eq!(p.details, "Browsing files in Oil");
    assert_eq!(asset_of(&p.large_image), (AssetKind::FileBrowser, s("oil")));
    assert_eq!(p.large_text, "Oil");
    let p = show(&given("Explorer", "", "", ""), &r, Some(&Filetype::PluginManager(s("lazy"), s("Lazy"))), None)
        .unwrap();
    assert_eq!(p.details, "Managing plugins in Explorer");
    assert_eq!(asset_of(&p.large_image), (AssetKind::PluginManager, s("lazy")));
    let p = show(&given("", "", "", ""), &r, Some(&Filetype::Lsp(s("mason"), s("Mason"))), None).unwrap();
    assert_eq!(p.details, "Configuring LSP in Mason");
    assert_eq!(asset_of(&p.large_image), (AssetKind::Lsp, s("mason")));
    let p = show(&given("", "", "ico", "tip"), &r, Some(&Filetype::Vcs(s("git"), s("Git"))), None).unwrap();
    assert_eq!(p.details, "Committing changes in Git");
    assert_eq!(text_of(&p.large_image), "ico");
    assert_eq!(p.large_text, "tip");
}

#[test]
fn unknown_filetype_with_language_asset_type() {
    let p = show(&given("Notes", "", "", ""), &buffer("notes.xyz", "xyz", Some("3:1"), false), None, Some(AssetType::Language))
        .unwrap();
    assert_eq!(p.details, "Editing notes.xyz:3:1");
    assert_eq!(text_of(&p.large_image), "xyz");
    assert_eq!(p.large_text, "Notes");
}

#[test]
fn unknown_filetype_with_tool_asset_type() {
    let p = show(&given("", "", "", ""), &buffer("", "neogit", None, false), None, Some(AssetType::Vcs)).unwrap();
    assert_eq!(p.details, "Committing changes in neogit");
    assert_eq!(text_of(&p.large_image), "neogit");
    assert_eq!(p.large_text, "");
    let p = show(&given("Tree", "", "icon", ""), &buffer("", "nvimtree", None, false), None, Some(AssetType::FileBrowser))
        .unwrap();
    assert_eq!(p.details, "Browsing files in Tree");
    assert_eq!(text_of(&p.large_image), "icon");
    assert_eq!(p.large_text, "Tree");
}

#[test]
fn unknown_filetype_without_asset_type_shows_nothing() {
    assert!(show(&given("", "", "", ""), &buffer("a", "b", None, false), None, None).is_none());
}

#[test]
fn session_down_shows_nothing() {
    let session = Session::new();
    let ft = Filetype::Language(s("rust"), s("Rust"));
    assert!(session
        .update_presence_with_assets(&given("", "", "", ""), None, &buffer("main.rs", "rust", None, false), Some(&ft))
        .is_none());
}

#[test]
fn session_up_shows_presence() {
    let mut session = Session::new();
    let (_, pending) = session.init(init_args("vim"));
    session.connection_established(pending.unwrap().config);
    let ft = Filetype::Language(s("rust"), s("Rust"));
    let p = session
        .update_presence_with_assets(&given("", "", "", ""), None, &buffer("lib.rs", "rust", None, true), Some(&ft))
        .unwrap();
    assert_eq!(p.details, "Viewing lib.rs");
    let img = session.resolve_image(p.large_image, None, None);
    assert_eq!(asset_of(&img), (AssetKind::Language, s("rust")));
}

#[test]
fn resolve_keeps_assets_urls_and_custom_images() {
    let img = resolve_large_image(false, Image::Asset(AssetKind::Vcs, s("git")), None, None);
    assert_eq!(asset_of(&img), (AssetKind::Vcs, s("git")));
    let img = resolve_large_image(false, Image::Text(s("https://x/y.png")), None, None);
    assert_eq!(text_of(&img), "https://x/y.png");
    let img = resolve_large_image(false, Image::Text(s("http://x/y.png")), None, None);
    assert_eq!(text_of(&img), "http://x/y.png");
    let ft = Filetype::Language(s("rust"), s("Rust"));
    let img = resolve_large_image(true, Image::Text(s("rust")), Some(&ft), None);
    assert_eq!(text_of(&img), "rust");
}

#[test]
fn resolve_looks_up_plain_names() {
    let ft = Filetype::Lsp(s("mason"), s("Mason"));
    let img = resolve_large_image(false, Image::Text(s("mason")), Some(&ft), Some(AssetType::Language));
    assert_eq!(asset_of(&img), (AssetKind::Lsp, s("mason")));
    let img = resolve_large_image(false, Image::Text(s("custom_icon")), None, Some(AssetType::PluginManager));
    assert_eq!(asset_of(&img), (AssetKind::PluginManager, s("custom_icon")));
    let img = resolve_large_image(false, Image::Text(s("custom_icon")), None, None);
    assert_eq!(asset_of(&img), (AssetKind::Language, s("custom_icon")));
    let img = resolve_large_image(false, Image::Text(s("httpx")), None, None);
    assert_eq!(asset_of(&img), (AssetKind::Language, s("httpx")));
}
