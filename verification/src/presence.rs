//! What a presence shows for a buffer: its details line, large image and tooltip.

use vstd::prelude::*;
use crate::assets::{
    asset_type_kind, filetype_view, kind_of_asset_type, AssetKind, AssetType, Filetype, FiletypeSpec, Image,
    ImageSpec,
};
use crate::config::Config;
use crate::text::{concat_text, fill, fill_placeholder, is_empty, opt_view, starts_with, starts_with_spec, text, text_eq};

verus! {

/// The buffer an editor asks a presence for, as plain values.
pub struct PresenceArgs {
    pub filename: String,
    pub filetype: String,
    pub cursor_position: Option<String>,
    pub problem_count: i32,
    pub is_read_only: bool,
}

/// What the editor gives of its own for a buffer's presence.
pub struct AssetArgs {
    /// A name for the buffer, used when it has no file name; empty for none.
    pub name: String,
    /// The editor's name for a buffer without a name; `Cord.new` for a new file.
    pub default_name: String,
    /// The icon, empty for none.
    pub icon: String,
    /// The tooltip, empty for none.
    pub tooltip: String,
}

/// The text, image and tooltip a presence shows.
pub struct Presence {
    pub details: String,
    pub large_image: Image,
    pub large_text: String,
}

/// The abstract value of a [`Presence`].
pub struct PresenceSpec {
    pub details: Seq<char>,
    pub large_image: ImageSpec,
    pub large_text: Seq<char>,
}

impl View for Presence {
    type V = PresenceSpec;

    open spec fn view(&self) -> PresenceSpec {
        PresenceSpec {
            details: self.details@,
            large_image: self.large_image@,
            large_text: self.large_text@,
        }
    }
}

/// The asset kind, default icon and default tooltip of a filetype.
pub open spec fn filetype_parts(f: FiletypeSpec) -> (AssetKind, Seq<char>, Seq<char>) {
    match f {
        FiletypeSpec::Language(i, t) => (AssetKind::Language, i, t),
        FiletypeSpec::FileBrowser(i, t) => (AssetKind::FileBrowser, i, t),
        FiletypeSpec::PluginManager(i, t) => (AssetKind::PluginManager, i, t),
        FiletypeSpec::Lsp(i, t) => (AssetKind::Lsp, i, t),
        FiletypeSpec::Vcs(i, t) => (AssetKind::Vcs, i, t),
    }
}

/// The template of the details line for buffers of a tool kind.
pub open spec fn tool_template(c: Config, k: AssetKind) -> Seq<char> {
    match k {
        AssetKind::FileBrowser => c.file_browser_text@,
        AssetKind::PluginManager => c.plugin_manager_text@,
        AssetKind::Lsp => c.lsp_manager_text@,
        _ => c.vcs_text@,
    }
}

/// The name a file buffer is shown by: its file name, else the name the
/// editor gave, else "a new file" for a new buffer, else "<filetype> file".
pub open spec fn shown_name(a: AssetArgs, r: PresenceArgs) -> Seq<char> {
    if r.filename@.len() > 0 {
        r.filename@
    } else if a.name@.len() > 0 {
        a.name@
    } else if a.default_name@ == "Cord.new"@ {
        "a new file"@
    } else {
        r.filetype@ + " file"@
    }
}

/// The details line of a file buffer: the viewing or editing template filled
/// with the shown name, then `:` and the cursor position when there is one.
pub open spec fn file_details(c: Config, a: AssetArgs, r: PresenceArgs) -> Seq<char> {
    let base = fill(if r.is_read_only { c.viewing_text@ } else { c.editing_text@ }, shown_name(a, r));
    match opt_view(r.cursor_position) {
        Some(p) => base + ":"@ + p,
        None => base,
    }
}

/// A given text, or a default when the given one is empty.
pub open spec fn or_default(given: Seq<char>, default: Seq<char>) -> Seq<char> {
    if given.len() > 0 {
        given
    } else {
        default
    }
}

/// What a presence shows for a buffer, before its large image is resolved:
/// `None` when the buffer is neither in the filetype table (`ft`) nor of a
/// kind the editor names (`at`).
pub open spec fn asset_presence_spec(
    c: Config,
    a: AssetArgs,
    r: PresenceArgs,
    ft: Option<FiletypeSpec>,
    at: Option<AssetType>,
) -> Option<PresenceSpec> {
    match ft {
        Some(f) => {
            let (k, icon, tip) = filetype_parts(f);
            let image = if a.icon@.len() > 0 {
                ImageSpec::Text(a.icon@)
            } else {
                ImageSpec::Asset(k, icon)
            };
            let details = if k == AssetKind::Language {
                file_details(c, a, r)
            } else {
                fill(tool_template(c, k), or_default(a.name@, tip))
            };
            Some(PresenceSpec { details, large_image: image, large_text: or_default(a.tooltip@, tip) })
        },
        None => match at {
            Some(t) => {
                let k = asset_type_kind(at);
                let details = if k == AssetKind::Language {
                    file_details(c, a, r)
                } else {
                    fill(tool_template(c, k), or_default(a.name@, r.filetype@))
                };
                Some(
                    PresenceSpec {
                        details,
                        large_image: ImageSpec::Text(or_default(a.icon@, r.filetype@)),
                        large_text: or_default(a.tooltip@, a.name@),
                    },
                )
            },
            None => None,
        },
    }
}

/// The large image once it is resolved: assets, URLs and the images of a
/// custom client stay; any other text is looked up in the filetype table
/// (`lookup` is the table's entry for it) and becomes that entry's asset, or
/// else an asset of that name in the folder of the editor's asset type.
pub open spec fn resolved_image_spec(
    custom: bool,
    image: ImageSpec,
    lookup: Option<FiletypeSpec>,
    at: Option<AssetType>,
) -> ImageSpec {
    match image {
        ImageSpec::Asset(_, _) => image,
        ImageSpec::Text(t) => if custom || starts_with_spec(t, "http://"@) || starts_with_spec(
            t,
            "https://"@,
        ) {
            image
        } else {
            match lookup {
                Some(f) => {
                    let (k, icon, _) = filetype_parts(f);
                    ImageSpec::Asset(k, icon)
                },
                None => ImageSpec::Asset(asset_type_kind(at), t),
            }
        },
    }
}

/// The name a buffer is shown by when the editor gives nothing of its own:
/// its file name, else "<filetype> file".
pub open spec fn plain_shown_name(r: PresenceArgs) -> Seq<char> {
    if r.filename@.len() > 0 {
        r.filename@
    } else {
        r.filetype@ + " file"@
    }
}

/// The details line of a buffer when the editor gives nothing of its own.
pub open spec fn plain_details(c: Config, r: PresenceArgs) -> Seq<char> {
    let base = fill(if r.is_read_only { c.viewing_text@ } else { c.editing_text@ }, plain_shown_name(r));
    match opt_view(r.cursor_position) {
        Some(p) => base + ":"@ + p,
        None => base,
    }
}

/// What a plain update shows for a buffer, before its large image is
/// resolved: the filetype table's entry `ft` for it, or else the buffer as a
/// file of the language named by its filetype.
pub open spec fn plain_presence_spec(c: Config, r: PresenceArgs, ft: Option<FiletypeSpec>) -> PresenceSpec {
    match ft {
        Some(f) => {
            let (k, icon, tip) = filetype_parts(f);
            PresenceSpec {
                details: if k == AssetKind::Language {
                    plain_details(c, r)
                } else {
                    fill(tool_template(c, k), tip)
                },
                large_image: ImageSpec::Asset(k, icon),
                large_text: tip,
            }
        },
        None => PresenceSpec {
            details: plain_details(c, r),
            large_image: ImageSpec::Text(r.filetype@),
            large_text: Seq::<char>::empty(),
        },
    }
}

/// The name a file buffer is shown by.
fn shown_name_of(a: &AssetArgs, r: &PresenceArgs) -> (s: String)
    ensures
        s@ == shown_name(*a, *r),
{
    if !is_empty(r.filename.as_str()) {
        r.filename.clone()
    } else if !is_empty(a.name.as_str()) {
        a.name.clone()
    } else if text_eq(a.default_name.as_str(), "Cord.new") {
        text("a new file")
    } else {
        concat_text(r.filetype.as_str(), " file")
    }
}

/// The details line of a file buffer.
pub fn file_details_of(c: &Config, a: &AssetArgs, r: &PresenceArgs) -> (s: String)
    ensures
        s@ == file_details(*c, *a, *r),
{
    let shown = shown_name_of(a, r);
    let base = if r.is_read_only {
        fill_placeholder(c.viewing_text.as_str(), shown.as_str())
    } else {
        fill_placeholder(c.editing_text.as_str(), shown.as_str())
    };
    match &r.cursor_position {
        Some(p) => {
            let with_colon = concat_text(base.as_str(), ":");
            concat_text(with_colon.as_str(), p.as_str())
        },
        None => base,
    }
}

fn or_default_of(given: &String, default: &String) -> (s: String)
    ensures
        s@ == or_default(given@, default@),
{
    if !is_empty(given.as_str()) {
        given.clone()
    } else {
        default.clone()
    }
}

fn parts_of(f: &Filetype) -> (r: (AssetKind, &String, &String))
    ensures
        (r.0, r.1@, r.2@) == filetype_parts(f@),
{
    match f {
        Filetype::Language(i, t) => (AssetKind::Language, i, t),
        Filetype::FileBrowser(i, t) => (AssetKind::FileBrowser, i, t),
        Filetype::PluginManager(i, t) => (AssetKind::PluginManager, i, t),
        Filetype::Lsp(i, t) => (AssetKind::Lsp, i, t),
        Filetype::Vcs(i, t) => (AssetKind::Vcs, i, t),
    }
}

fn tool_template_of(c: &Config, k: AssetKind) -> (s: &String)
    ensures
        s@ == tool_template(*c, k),
{
    match k {
        AssetKind::FileBrowser => &c.file_browser_text,
        AssetKind::PluginManager => &c.plugin_manager_text,
        AssetKind::Lsp => &c.lsp_manager_text,
        _ => &c.vcs_text,
    }
}

/// The details line, image and tooltip of a buffer, from the filetype
/// table's entry `ft` for it and the editor's asset type `at`.
///
/// A buffer in the table shows the table's icon and tooltip unless the editor
/// gave its own; a language buffer shows the viewing or editing text with its
/// name (and the cursor position), a tool buffer the template of its kind with
/// the editor's name for it or the table's tooltip. A buffer not in the table
/// is shown by its filetype in the folder of the editor's asset type; without
/// an asset type there is nothing to show (`None`).
pub fn asset_presence(
    c: &Config,
    a: &AssetArgs,
    r: &PresenceArgs,
    ft: Option<&Filetype>,
    at: Option<AssetType>,
) -> (p: Option<Presence>)
    ensures
        match p {
            Some(p) => asset_presence_spec(*c, *a, *r, filetype_view(ft), at) == Some(p@),
            None => asset_presence_spec(*c, *a, *r, filetype_view(ft), at) is None,
        },
{
    match ft {
        Some(f) => {
            let (k, icon, tip) = parts_of(f);
            let large_image = if !is_empty(a.icon.as_str()) {
                Image::Text(a.icon.clone())
            } else {
                Image::Asset(k, icon.clone())
            };
            let details = if k == AssetKind::Language {
                file_details_of(c, a, r)
            } else {
                let shown = or_default_of(&a.name, tip);
                fill_placeholder(tool_template_of(c, k).as_str(), shown.as_str())
            };
            let large_text = or_default_of(&a.tooltip, tip);
            Some(Presence { details, large_image, large_text })
        },
        None => match at {
            Some(_) => {
                let k = kind_of_asset_type(at);
                let details = if k == AssetKind::Language {
                    file_details_of(c, a, r)
                } else {
                    let shown = or_default_of(&a.name, &r.filetype);
                    fill_placeholder(tool_template_of(c, k).as_str(), shown.as_str())
                };
                let large_image = Image::Text(or_default_of(&a.icon, &r.filetype));
                let large_text = or_default_of(&a.tooltip, &a.name);
                Some(Presence { details, large_image, large_text })
            },
            None => None,
        },
    }
}

/// What a plain update shows for a buffer, before its large image is
/// resolved: the presence of the buffer with no name, icon or tooltip of the
/// editor's own and the language asset type, from the filetype table's entry
/// `ft` for it.
pub fn plain_presence(c: &Config, r: &PresenceArgs, ft: Option<&Filetype>) -> (p: Presence)
    ensures
        p@ == plain_presence_spec(*c, *r, filetype_view(ft)),
{
    let given = AssetArgs {
        name: String::new(),
        default_name: String::new(),
        icon: String::new(),
        tooltip: String::new(),
    };
    proof {
        reveal_strlit("Cord.new");
        assert("Cord.new"@.len() == 8);
        assert(given.default_name@.len() == 0);
        assert(given.default_name@ != "Cord.new"@);
        assert(shown_name(given, *r) == plain_shown_name(*r));
        assert(file_details(*c, given, *r) == plain_details(*c, *r));
    }
    asset_presence(c, &given, r, ft, Some(AssetType::Language)).unwrap()
}

/// Resolves a presence's large image: assets, URLs and the images of a custom
/// client stay as they are; any other text becomes the asset of the filetype
/// table's entry `lookup` for it, or else an asset of that name in the folder
/// of the editor's asset type `at`.
pub fn resolve_large_image(
    custom: bool,
    image: Image,
    lookup: Option<&Filetype>,
    at: Option<AssetType>,
) -> (r: Image)
    ensures
        r@ == resolved_image_spec(custom, image@, filetype_view(lookup), at),
{
    match image {
        Image::Asset(k, n) => Image::Asset(k, n),
        Image::Text(t) => {
            if custom || starts_with(t.as_str(), "http://") || starts_with(t.as_str(), "https://") {
                Image::Text(t)
            } else {
                match lookup {
                    Some(f) => {
                        let (k, icon, _) = parts_of(f);
                        Image::Asset(k, icon.clone())
                    },
                    None => Image::Asset(kind_of_asset_type(at), t),
                }
            }
        },
    }
}

} // verus!
