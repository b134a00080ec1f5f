use cord::assets::{AssetKind, Image};
use cord::client::resolve_client;
use cord::status::Status;

fn asset(img: &Image) -> Option<(AssetKind, String)> {
    match img {
        Image::Asset(k, n) => Some((*k, n.clone())),
        Image::Text(_) => None,
    }
}

#[test]
fn known_editors_have_their_own_application() {
    let table = [
        ("vim", 1219918645770059796u64),
        ("neovim", 1219918880005165137),
        ("lunarvim", 1220295374087000104),
        ("nvchad", 1220296082861326378),
        ("astronvim", 1230866983977746532),
    ];
    for (name, id) in table.iter() {
        let s = resolve_client(name, None).ok().unwrap();
        assert_eq!(s.client_id, *id);
        assert!(!s.is_custom);
        assert_eq!(asset(&s.editor_image), Some((AssetKind::Editor, name.to_string())));
    }
}

#[test]
fn known_editor_with_given_image() {
    let s = resolve_client("vim", Some("https://img/x.png".to_string())).ok().unwrap();
    assert!(!s.is_custom);
    match s.editor_image {
        Image::Text(t) => assert_eq!(t, "https://img/x.png"),
        _ => panic!("expected the given image"),
    }
}

#[test]
fn numeric_client_is_custom() {
    let s = resolve_client("123456", None).ok().unwrap();
    assert_eq!(s.client_id, 123456);
    assert!(s.is_custom);
    assert_eq!(asset(&s.editor_image), Some((AssetKind::Editor, "neovim".to_string())));
    let s = resolve_client("99", Some("mine".to_string())).ok().unwrap();
    assert!(s.is_custom);
    match s.editor_image {
        Image::Text(t) => assert_eq!(t, "mine"),
        _ => panic!("expected the given image"),
    }
}

#[test]
fn unknown_client_is_refused() {
    assert_eq!(resolve_client("emacs", None).err(), Some(Status::InvalidClientId));
    assert_eq!(resolve_client("Vim", None).err(), Some(Status::InvalidClientId));
    assert_eq!(resolve_client("", None).err(), Some(Status::InvalidClientId));
}

#[test]
fn asset_kind_names() {
    assert_eq!(AssetKind::Editor.name(), "editor");
    assert_eq!(AssetKind::Language.name(), "language");
    assert_eq!(AssetKind::FileBrowser.name(), "file_browser");
    assert_eq!(AssetKind::PluginManager.name(), "plugin_manager");
    assert_eq!(AssetKind::Lsp.name(), "lsp");
    assert_eq!(AssetKind::Vcs.name(), "vcs");
}
