//! Images shown in a presence, and what the editor knows of a buffer's filetype.

use vstd::prelude::*;

verus! {

/// The folders of the asset collection.
#[derive(Clone, Copy, Debug, PartialEq, Eq, Structural)]
pub enum AssetKind {
    Editor,
    Language,
    FileBrowser,
    PluginManager,
    Lsp,
    Vcs,
}

impl AssetKind {
    /// The folder name of the kind.
    pub open spec fn name_spec(self) -> Seq<char> {
        match self {
            AssetKind::Editor => "editor"@,
            AssetKind::Language => "language"@,
            AssetKind::FileBrowser => "file_browser"@,
            AssetKind::PluginManager => "plugin_manager"@,
            AssetKind::Lsp => "lsp"@,
            AssetKind::Vcs => "vcs"@,
        }
    }

    /// The folder name of the kind.
    pub fn name(&self) -> (r: String)
        ensures
            r@ == self.name_spec(),
    {
        match self {
            AssetKind::Editor => String::from_str("editor"),
            AssetKind::Language => String::from_str("language"),
            AssetKind::FileBrowser => String::from_str("file_browser"),
            AssetKind::PluginManager => String::from_str("plugin_manager"),
            AssetKind::Lsp => String::from_str("lsp"),
            AssetKind::Vcs => String::from_str("vcs"),
        }
    }
}

/// An image of a presence: an asset of the collection, given by its kind and
/// name, or a text the user gave (a URL or a name to look up).
#[derive(Debug)]
pub enum Image {
    Asset(AssetKind, String),
    Text(String),
}

impl Image {
    /// A copy of the image.
    pub fn duplicate(&self) -> (r: Image)
        ensures
            r@ == self@,
    {
        match self {
            Image::Asset(k, n) => Image::Asset(*k, n.clone()),
            Image::Text(t) => Image::Text(t.clone()),
        }
    }
}

/// The abstract value of an [`Image`].
pub enum ImageSpec {
    Asset(AssetKind, Seq<char>),
    Text(Seq<char>),
}

impl View for Image {
    type V = ImageSpec;

    open spec fn view(&self) -> ImageSpec {
        match self {
            Image::Asset(k, n) => ImageSpec::Asset(*k, n@),
            Image::Text(t) => ImageSpec::Text(t@),
        }
    }
}

/// What the filetype table knows of a buffer: its kind, with the default icon
/// and tooltip.
#[derive(Debug)]
pub enum Filetype {
    Language(String, String),
    FileBrowser(String, String),
    PluginManager(String, String),
    Lsp(String, String),
    Vcs(String, String),
}

/// The abstract value of a [`Filetype`].
pub enum FiletypeSpec {
    Language(Seq<char>, Seq<char>),
    FileBrowser(Seq<char>, Seq<char>),
    PluginManager(Seq<char>, Seq<char>),
    Lsp(Seq<char>, Seq<char>),
    Vcs(Seq<char>, Seq<char>),
}

impl View for Filetype {
    type V = FiletypeSpec;

    open spec fn view(&self) -> FiletypeSpec {
        match self {
            Filetype::Language(i, t) => FiletypeSpec::Language(i@, t@),
            Filetype::FileBrowser(i, t) => FiletypeSpec::FileBrowser(i@, t@),
            Filetype::PluginManager(i, t) => FiletypeSpec::PluginManager(i@, t@),
            Filetype::Lsp(i, t) => FiletypeSpec::Lsp(i@, t@),
            Filetype::Vcs(i, t) => FiletypeSpec::Vcs(i@, t@),
        }
    }
}

/// The abstract value of an optional filetype entry.
pub open spec fn filetype_view(o: Option<&Filetype>) -> Option<FiletypeSpec> {
    match o {
        Some(f) => Some(f@),
        None => None,
    }
}

/// The kind of asset the editor names when it gives its own icon.
#[derive(Clone, Copy, Debug, PartialEq, Eq, Structural)]
pub enum AssetType {
    Language,
    FileBrowser,
    PluginManager,
    Lsp,
    Vcs,
}

/// The asset folder that goes with an asset type; language when none is given.
pub open spec fn asset_type_kind(t: Option<AssetType>) -> AssetKind {
    match t {
        Some(AssetType::Language) => AssetKind::Language,
        Some(AssetType::FileBrowser) => AssetKind::FileBrowser,
        Some(AssetType::PluginManager) => AssetKind::PluginManager,
        Some(AssetType::Lsp) => AssetKind::Lsp,
        Some(AssetType::Vcs) => AssetKind::Vcs,
        None => AssetKind::Language,
    }
}

/// The asset folder that goes with an asset type; language when none is given.
pub fn kind_of_asset_type(t: Option<AssetType>) -> (k: AssetKind)
    ensures
        k == asset_type_kind(t),
{
    match t {
        Some(AssetType::Language) => AssetKind::Language,
        Some(AssetType::FileBrowser) => AssetKind::FileBrowser,
        Some(AssetType::PluginManager) => AssetKind::PluginManager,
        Some(AssetType::Lsp) => AssetKind::Lsp,
        Some(AssetType::Vcs) => AssetKind::Vcs,
        None => AssetKind::Language,
    }
}

} // verus!
