//! Properties of what a presence shows, stated over the settings and the
//! buffer directly.

use vstd::prelude::*;
use crate::activity::{fields_spec, workspace_state};
use crate::assets::{asset_type_kind, AssetKind, AssetType, FiletypeSpec, ImageSpec};
use crate::config::{config_matches, Config, InitArgs};
use crate::presence::{
    asset_presence_spec, file_details, filetype_parts, plain_details, plain_shown_name, shown_name, plain_presence_spec, resolved_image_spec, tool_template,
    AssetArgs, PresenceArgs, PresenceSpec,
};
use crate::session::{is_idle_filetype, presence_plan_spec, workspace_set, Session};
use crate::text::{fill, opt_view, starts_with_spec};

verus! {

/// Each asset type the editor names goes to the asset folder of the same
/// name; without one, the language folder.
pub proof fn law_asset_type_folders()
    ensures
        asset_type_kind(Some(AssetType::Language)) == AssetKind::Language,
        asset_type_kind(Some(AssetType::FileBrowser)) == AssetKind::FileBrowser,
        asset_type_kind(Some(AssetType::PluginManager)) == AssetKind::PluginManager,
        asset_type_kind(Some(AssetType::Lsp)) == AssetKind::Lsp,
        asset_type_kind(Some(AssetType::Vcs)) == AssetKind::Vcs,
        asset_type_kind(None) == AssetKind::Language,
{
}

/// A filetype-table entry's kind is its variant, with its own icon and
/// tooltip.
pub proof fn law_table_entry_parts(i: Seq<char>, t: Seq<char>)
    ensures
        filetype_parts(FiletypeSpec::Language(i, t)) == (AssetKind::Language, i, t),
        filetype_parts(FiletypeSpec::FileBrowser(i, t)) == (AssetKind::FileBrowser, i, t),
        filetype_parts(FiletypeSpec::PluginManager(i, t)) == (AssetKind::PluginManager, i, t),
        filetype_parts(FiletypeSpec::Lsp(i, t)) == (AssetKind::Lsp, i, t),
        filetype_parts(FiletypeSpec::Vcs(i, t)) == (AssetKind::Vcs, i, t),
{
}

/// Each tool kind's details line comes from that tool's own template.
pub proof fn law_tool_templates(c: Config)
    ensures
        tool_template(c, AssetKind::FileBrowser) == c.file_browser_text@,
        tool_template(c, AssetKind::PluginManager) == c.plugin_manager_text@,
        tool_template(c, AssetKind::Lsp) == c.lsp_manager_text@,
        tool_template(c, AssetKind::Vcs) == c.vcs_text@,
{
}

/// A buffer that is not in the filetype table but of a tool asset type the
/// editor names shows that tool's template filled with the editor's name for
/// it, or its filetype, and its filetype as the image.
pub proof fn law_tool_asset_type_presence(c: Config, a: AssetArgs, r: PresenceArgs)
    ensures
        ({
            let shown = if a.name@.len() > 0 { a.name@ } else { r.filetype@ };
            let image = ImageSpec::Text(if a.icon@.len() > 0 { a.icon@ } else { r.filetype@ });
            &&& asset_presence_spec(c, a, r, None, Some(AssetType::Lsp))->0.details == fill(
                c.lsp_manager_text@,
                shown,
            )
            &&& asset_presence_spec(c, a, r, None, Some(AssetType::PluginManager))->0.details
                == fill(c.plugin_manager_text@, shown)
            &&& asset_presence_spec(c, a, r, None, Some(AssetType::FileBrowser))->0.details
                == fill(c.file_browser_text@, shown)
            &&& asset_presence_spec(c, a, r, None, Some(AssetType::Vcs))->0.details == fill(
                c.vcs_text@,
                shown,
            )
            &&& asset_presence_spec(c, a, r, None, Some(AssetType::Lsp))->0.large_image == image
        }),
{
}

/// A plain name that is not a URL, shown by a client that is not custom, is
/// looked up in the folder of the editor's asset type when the table has no
/// entry for it.
pub proof fn law_untabled_image_folder(x: Seq<char>, at: AssetType)
    requires
        !starts_with_spec(x, "http://"@),
        !starts_with_spec(x, "https://"@),
    ensures
        resolved_image_spec(false, ImageSpec::Text(x), None, Some(at)) == ImageSpec::Asset(
            match at {
                AssetType::Language => AssetKind::Language,
                AssetType::FileBrowser => AssetKind::FileBrowser,
                AssetType::PluginManager => AssetKind::PluginManager,
                AssetType::Lsp => AssetKind::Lsp,
                AssetType::Vcs => AssetKind::Vcs,
            },
            x,
        ),
{
}

/// A plain name that is not a URL, shown by a client that is not custom,
/// becomes the asset of its table entry: the entry's icon in the folder of
/// the entry's kind.
pub proof fn law_tabled_image_folder(x: Seq<char>, i: Seq<char>, t: Seq<char>, at: Option<AssetType>)
    requires
        !starts_with_spec(x, "http://"@),
        !starts_with_spec(x, "https://"@),
    ensures
        resolved_image_spec(false, ImageSpec::Text(x), Some(FiletypeSpec::Vcs(i, t)), at)
            == ImageSpec::Asset(AssetKind::Vcs, i),
        resolved_image_spec(false, ImageSpec::Text(x), Some(FiletypeSpec::Lsp(i, t)), at)
            == ImageSpec::Asset(AssetKind::Lsp, i),
        resolved_image_spec(false, ImageSpec::Text(x), Some(FiletypeSpec::PluginManager(i, t)), at)
            == ImageSpec::Asset(AssetKind::PluginManager, i),
        resolved_image_spec(false, ImageSpec::Text(x), Some(FiletypeSpec::FileBrowser(i, t)), at)
            == ImageSpec::Asset(AssetKind::FileBrowser, i),
        resolved_image_spec(false, ImageSpec::Text(x), Some(FiletypeSpec::Language(i, t)), at)
            == ImageSpec::Asset(AssetKind::Language, i),
{
}

/// A buffer in the table without an icon of the editor's shows the entry's
/// icon in the folder of the entry's kind, and the entry's tooltip when the
/// editor gives none.
pub proof fn law_table_entry_defaults(c: Config, a: AssetArgs, r: PresenceArgs, i: Seq<char>, t: Seq<char>, at: Option<AssetType>)
    requires
        a.icon@.len() == 0,
        a.tooltip@.len() == 0,
    ensures
        asset_presence_spec(c, a, r, Some(FiletypeSpec::Vcs(i, t)), at)->0.large_image
            == ImageSpec::Asset(AssetKind::Vcs, i),
        asset_presence_spec(c, a, r, Some(FiletypeSpec::Lsp(i, t)), at)->0.large_image
            == ImageSpec::Asset(AssetKind::Lsp, i),
        asset_presence_spec(c, a, r, Some(FiletypeSpec::PluginManager(i, t)), at)->0.large_image
            == ImageSpec::Asset(AssetKind::PluginManager, i),
        asset_presence_spec(c, a, r, Some(FiletypeSpec::FileBrowser(i, t)), at)->0.large_image
            == ImageSpec::Asset(AssetKind::FileBrowser, i),
        asset_presence_spec(c, a, r, Some(FiletypeSpec::Language(i, t)), at)->0.large_image
            == ImageSpec::Asset(AssetKind::Language, i),
        asset_presence_spec(c, a, r, Some(FiletypeSpec::Vcs(i, t)), at)->0.large_text == t,
        asset_presence_spec(c, a, r, Some(FiletypeSpec::Language(i, t)), at)->0.large_text == t,
{
}

/// The details line of a file buffer: a read-only buffer is shown with the
/// viewing template, any other with the editing template, filled with its
/// file name when it has one, then `:` and the cursor position when given.
pub proof fn law_file_details_read_only(c: Config, a: AssetArgs, r: PresenceArgs, ft: Option<FiletypeSpec>)
    requires
        r.filename@.len() > 0,
        ft is None || ft matches Some(FiletypeSpec::Language(_, _)),
    ensures
        ({
            let template = if r.is_read_only { c.viewing_text@ } else { c.editing_text@ };
            let base = fill(template, r.filename@);
            let d = asset_presence_spec(c, a, r, ft, Some(AssetType::Language))->0.details;
            &&& opt_view(r.cursor_position) is None ==> d == base
            &&& opt_view(r.cursor_position) matches Some(p) ==> d == base + ":"@ + p
        }),
{
}

/// A plain update shows what a buffer shows when the editor gives no name,
/// icon or tooltip of its own and names the language asset type.
pub proof fn law_plain_is_bare_asset_presence(c: Config, a: AssetArgs, r: PresenceArgs, ft: Option<FiletypeSpec>)
    requires
        a.name@.len() == 0,
        a.default_name@.len() == 0,
        a.icon@.len() == 0,
        a.tooltip@.len() == 0,
    ensures
        asset_presence_spec(c, a, r, ft, Some(AssetType::Language)) == Some(
            plain_presence_spec(c, r, ft),
        ),
{
    reveal_strlit("Cord.new");
    assert("Cord.new"@.len() == 8);
    assert(a.default_name@ != "Cord.new"@);
    assert(shown_name(a, r) == plain_shown_name(r));
    assert(file_details(c, a, r) == plain_details(c, r));
    assert(a.name@ =~= Seq::<char>::empty());
}

/// A plain update of a named file buffer not in the table: a read-only
/// buffer is shown with the viewing template, any other with the editing
/// template, filled with its file name, then `:` and the cursor position.
pub proof fn law_plain_read_only(c: Config, r: PresenceArgs)
    requires
        r.filename@.len() > 0,
    ensures
        ({
            let template = if r.is_read_only { c.viewing_text@ } else { c.editing_text@ };
            let base = fill(template, r.filename@);
            let d = plain_presence_spec(c, r, None).details;
            &&& opt_view(r.cursor_position) is None ==> d == base
            &&& opt_view(r.cursor_position) matches Some(p) ==> d == base + ":"@ + p
        }),
{
}

/// An idle editor is shown with the session's idle text, icon and tooltip.
pub proof fn law_idle_shows_idle_settings(s: Session, filetype: Seq<char>)
    requires
        s.connected,
        s.config is Some,
        filetype == "Cord.idle"@,
        s.config->0.idle_text@.len() > 0,
    ensures
        presence_plan_spec(s, filetype) == Some(
            Some(
                PresenceSpec {
                    details: s.config->0.idle_text@,
                    large_image: s.config->0.idle_icon@,
                    large_text: s.config->0.idle_tooltip@,
                },
            ),
        ),
{
}

/// A session started with an idle icon of the editor's shows that icon when
/// idle; one started without shows the idle asset.
pub proof fn law_idle_icon_from_init(
    s: Session,
    c: Config,
    opts: InitArgs,
    custom: bool,
    editor_image: ImageSpec,
)
    requires
        s.connected,
        s.config == Some(c),
        config_matches(c, opts, custom, editor_image),
        c.idle_text@.len() > 0,
    ensures
        ({
            let plan = presence_plan_spec(s, "Cord.idle"@);
            &&& opts.idle_icon matches Some(x) ==> plan->0->0.large_image == ImageSpec::Text(x@)
            &&& opts.idle_icon is None ==> plan->0->0.large_image == ImageSpec::Asset(
                AssetKind::Editor,
                "idle"@,
            )
        }),
{
}

/// With a workspace, the state line is the workspace text filled with the
/// whole workspace name; without one, there is no state line.
pub proof fn law_workspace_state(c: Config)
    ensures
        c.workspace@.len() > 0 ==> workspace_state(c) == fill(c.workspace_text@, c.workspace@),
        c.workspace@.len() == 0 ==> workspace_state(c).len() == 0,
{
}

/// A workspace text that is only the placeholder shows exactly the workspace
/// name set last, in the state line of an activity without swapped fields.
pub proof fn law_state_shows_set_workspace(s: Session, v: String, p: PresenceSpec)
    requires
        s.config is Some,
        s.config->0.workspace_text@ == "{}"@,
        !s.config->0.swap_fields,
        v@.len() > 0,
    ensures
        fields_spec(workspace_set(s, v).config->0, p).state == v@,
        workspace_set(s, v).config->0.workspace == v,
{
    crate::laws::law_fill_placeholder_only(v@);
}

/// The name a file buffer without a file name is shown by: the editor's name
/// for it, else "a new file" for a new buffer, else "<filetype> file".
pub proof fn law_unnamed_file_buffer(c: Config, a: AssetArgs, r: PresenceArgs)
    requires
        r.filename@.len() == 0,
        !r.is_read_only,
        r.cursor_position is None,
    ensures
        ({
            let d = asset_presence_spec(c, a, r, None, Some(AssetType::Language))->0.details;
            &&& a.name@.len() > 0 ==> d == fill(c.editing_text@, a.name@)
            &&& a.name@.len() == 0 && a.default_name@ == "Cord.new"@ ==> d == fill(
                c.editing_text@,
                "a new file"@,
            )
            &&& a.name@.len() == 0 && a.default_name@ != "Cord.new"@ ==> d == fill(
                c.editing_text@,
                r.filetype@ + " file"@,
            )
        }),
{
}

/// A buffer not in the table, of the language asset type, shows the editor's
/// tooltip, or else the editor's name for it; its image is the editor's icon,
/// or else its filetype.
pub proof fn law_untabled_language_defaults(c: Config, a: AssetArgs, r: PresenceArgs)
    ensures
        ({
            let p = asset_presence_spec(c, a, r, None, Some(AssetType::Language))->0;
            &&& p.large_text == (if a.tooltip@.len() > 0 { a.tooltip@ } else { a.name@ })
            &&& p.large_image == ImageSpec::Text(
                if a.icon@.len() > 0 { a.icon@ } else { r.filetype@ },
            )
        }),
{
}

/// Images that need no lookup stay as they are: assets, URLs, and any image
/// of a custom client.
pub proof fn law_resolve_keeps(image: ImageSpec, x: Seq<char>, k: AssetKind, lookup: Option<FiletypeSpec>, at: Option<AssetType>)
    ensures
        resolved_image_spec(true, image, lookup, at) == image,
        resolved_image_spec(false, ImageSpec::Asset(k, x), lookup, at) == ImageSpec::Asset(k, x),
        starts_with_spec(x, "http://"@) ==> resolved_image_spec(false, ImageSpec::Text(x), lookup, at)
            == ImageSpec::Text(x),
        starts_with_spec(x, "https://"@) ==> resolved_image_spec(false, ImageSpec::Text(x), lookup, at)
            == ImageSpec::Text(x),
{
}

/// Swapping fields exchanges the details line and the state line; swapping
/// icons exchanges the large and the small image and tooltip.
pub proof fn law_swaps_exchange(c: Config, p: PresenceSpec)
    ensures
        ({
            let f = fields_spec(c, p);
            let g = fields_spec(Config { swap_fields: !c.swap_fields, ..c }, p);
            let h = fields_spec(Config { swap_icons: !c.swap_icons, ..c }, p);
            &&& f.details == g.state && f.state == g.details
            &&& f.large_image == g.large_image && f.small_image == g.small_image
            &&& f.large_image == h.small_image && f.small_image == h.large_image
            &&& f.large_text == h.small_text && f.small_text == h.large_text
            &&& f.details == h.details && f.state == h.state
        }),
        !c.swap_fields ==> fields_spec(c, p).details == p.details,
        !c.swap_icons ==> fields_spec(c, p).large_image == p.large_image && fields_spec(c, p).small_image
            == c.editor_image@ && fields_spec(c, p).large_text == p.large_text
            && fields_spec(c, p).small_text == c.editor_tooltip@,
{
}

/// An idle editor without an idle text gets no presence; any other filetype
/// of a running session is built for the buffer.
pub proof fn law_idle_and_build_plans(s: Session, filetype: Seq<char>)
    requires
        s.connected,
        s.config is Some,
    ensures
        filetype == "Cord.idle"@ && s.config->0.idle_text@.len() == 0 ==> presence_plan_spec(
            s,
            filetype,
        ) is None,
        filetype != "Cord.idle"@ ==> presence_plan_spec(s, filetype) == Some(None::<PresenceSpec>),
{
}

} // verus!
