//! The settings a session is started with.

use vstd::prelude::*;
use crate::assets::{AssetKind, Image, ImageSpec};
use crate::client::{client_setup_spec, resolve_client};
use crate::status::Status;
use crate::text::{contains_text, is_empty, opt_view, text, text_eq};

verus! {

/// A button of an activity: a label and the URL it opens.
pub struct ActivityButton {
    pub label: String,
    pub url: String,
}

/// The buttons as the editor configured them, before they are checked
/// against the workspace.
pub struct InitButtons {
    pub first_label: String,
    pub first_url: String,
    pub second_label: String,
    pub second_url: String,
}

impl InitButtons {
    /// No buttons: all four texts empty.
    pub fn empty() -> (b: InitButtons)
        ensures
            b.first_label@.len() == 0,
            b.first_url@.len() == 0,
            b.second_label@.len() == 0,
            b.second_url@.len() == 0,
    {
        InitButtons {
            first_label: String::new(),
            first_url: String::new(),
            second_label: String::new(),
            second_url: String::new(),
        }
    }
}

/// A configured button as it can be shown: both texts set, with the URL
/// `git` standing for the repository's web address `origin`; `None` when the
/// button cannot be shown.
pub open spec fn checked_button(label: Seq<char>, url: Seq<char>, origin: Option<Seq<char>>) -> Option<
    (Seq<char>, Seq<char>),
> {
    if label.len() == 0 || url.len() == 0 {
        None
    } else if url == "git"@ {
        match origin {
            Some(o) => Some((label, o)),
            None => None,
        }
    } else {
        Some((label, url))
    }
}

/// The list holding a button that can be shown, or nothing.
pub open spec fn button_list(b: Option<(Seq<char>, Seq<char>)>) -> Seq<(Seq<char>, Seq<char>)> {
    match b {
        Some(x) => seq![x],
        None => Seq::<(Seq<char>, Seq<char>)>::empty(),
    }
}

/// The label and URL of each button of a list.
pub open spec fn button_texts(v: Seq<ActivityButton>) -> Seq<(Seq<char>, Seq<char>)> {
    v.map_values(|b: ActivityButton| (b.label@, b.url@))
}

fn checked_button_of(label: &String, url: &String, origin: &Option<String>) -> (r: Option<ActivityButton>)
    ensures
        match checked_button(label@, url@, opt_view(*origin)) {
            Some((l, u)) => r matches Some(b) && b.label@ == l && b.url@ == u,
            None => r is None,
        },
{
    if is_empty(label.as_str()) || is_empty(url.as_str()) {
        None
    } else if text_eq(url.as_str(), "git") {
        match origin {
            Some(o) => Some(ActivityButton { label: label.clone(), url: o.clone() }),
            None => None,
        }
    } else {
        Some(ActivityButton { label: label.clone(), url: url.clone() })
    }
}

/// The configured buttons that can be shown, first then second: a button
/// needs both its label and its URL, and the URL `git` stands for the
/// workspace repository's web address `origin` (the button is dropped when
/// there is none).
pub fn check_buttons(b: &InitButtons, origin: Option<String>) -> (r: Vec<ActivityButton>)
    ensures
        button_texts(r@) == button_list(checked_button(b.first_label@, b.first_url@, opt_view(origin)))
            + button_list(checked_button(b.second_label@, b.second_url@, opt_view(origin))),
{
    let mut r: Vec<ActivityButton> = Vec::new();
    let first = checked_button_of(&b.first_label, &b.first_url, &origin);
    let second = checked_button_of(&b.second_label, &b.second_url, &origin);
    let ghost f = button_list(checked_button(b.first_label@, b.first_url@, opt_view(origin)));
    let ghost g = button_list(checked_button(b.second_label@, b.second_url@, opt_view(origin)));
    match first {
        Some(x) => {
            r.push(x);
        },
        None => {},
    }
    assert(button_texts(r@) =~= f);
    match second {
        Some(x) => {
            r.push(x);
        },
        None => {},
    }
    assert(button_texts(r@) =~= f + g);
    r
}

/// What the editor hands over when it starts a session, as plain values.
pub struct InitArgs {
    /// An editor's name or a decimal application id.
    pub client: String,
    /// The editor image, if the editor gave one.
    pub image: Option<String>,
    pub editor_tooltip: String,
    pub idle_text: String,
    pub idle_tooltip: String,
    /// The idle icon, if the editor gave one.
    pub idle_icon: Option<String>,
    pub viewing_text: String,
    pub editing_text: String,
    pub file_browser_text: String,
    pub plugin_manager_text: String,
    pub lsp_manager_text: String,
    pub vcs_text: String,
    pub workspace_text: String,
    /// Workspace names on which no presence is wanted.
    pub workspace_blacklist: Vec<String>,
    /// The name of the workspace the editor starts in (empty if it has none).
    pub workspace: String,
    /// The configured buttons, if the editor gave any.
    pub buttons: Option<InitButtons>,
    /// The configured buttons once checked against the workspace.
    pub checked_buttons: Vec<ActivityButton>,
    pub swap_fields: bool,
    pub swap_icons: bool,
}

/// The settings of a running session.
pub struct Config {
    pub is_custom_client: bool,
    pub editor_image: Image,
    pub editor_tooltip: String,
    pub idle_text: String,
    pub idle_tooltip: String,
    pub idle_icon: Image,
    pub viewing_text: String,
    pub editing_text: String,
    pub file_browser_text: String,
    pub plugin_manager_text: String,
    pub lsp_manager_text: String,
    pub vcs_text: String,
    pub workspace_text: String,
    pub workspace: String,
    pub workspace_blacklist: Vec<String>,
    pub buttons: Vec<ActivityButton>,
    pub swap_fields: bool,
    pub swap_icons: bool,
    pub init_buttons: InitButtons,
}

/// Whether `name` is on the blacklist `list`.
pub open spec fn blacklisted(list: Seq<String>, name: Seq<char>) -> bool {
    exists|i: int| 0 <= i < list.len() && #[trigger] list[i]@ == name
}

/// The idle icon: the one the editor gave, or the idle asset.
pub open spec fn idle_icon_spec(icon: Option<Seq<char>>) -> ImageSpec {
    match icon {
        Some(i) => ImageSpec::Text(i),
        None => ImageSpec::Asset(AssetKind::Editor, "idle"@),
    }
}

/// Whether `c` holds the options `o` as a session keeps them, for a client
/// resolved to `custom` and `editor_image`.
pub open spec fn config_matches(c: Config, o: InitArgs, custom: bool, editor_image: ImageSpec) -> bool {
    &&& c.is_custom_client == custom
    &&& c.editor_image@ == editor_image
    &&& c.editor_tooltip@ == o.editor_tooltip@
    &&& c.idle_text@ == o.idle_text@
    &&& c.idle_tooltip@ == o.idle_tooltip@
    &&& c.idle_icon@ == idle_icon_spec(opt_view(o.idle_icon))
    &&& c.viewing_text@ == o.viewing_text@
    &&& c.editing_text@ == o.editing_text@
    &&& c.file_browser_text@ == o.file_browser_text@
    &&& c.plugin_manager_text@ == o.plugin_manager_text@
    &&& c.lsp_manager_text@ == o.lsp_manager_text@
    &&& c.vcs_text@ == o.vcs_text@
    &&& c.workspace_text@ == o.workspace_text@
    &&& c.workspace@ == o.workspace@
    &&& c.workspace_blacklist@ == o.workspace_blacklist@
    &&& c.swap_fields == o.swap_fields
    &&& c.swap_icons == o.swap_icons
    &&& match o.buttons {
        Some(b) => c.buttons@ == o.checked_buttons@ && c.init_buttons == b,
        None => c.buttons@.len() == 0 && c.init_buttons.first_label@.len() == 0
            && c.init_buttons.first_url@.len() == 0 && c.init_buttons.second_label@.len() == 0
            && c.init_buttons.second_url@.len() == 0,
    }
}

/// A session that is ready to connect: the application to connect to, the
/// settings it will run with, and whether its workspace is blacklisted.
pub struct PendingSession {
    pub client_id: u64,
    pub config: Config,
    pub blacklisted: bool,
}

/// Turns the editor's options into the settings of a session.
///
/// Fails with `InvalidClientId` exactly when the client is neither a known
/// editor nor a decimal application id. Otherwise the settings hold the
/// options; buttons are kept only when the editor configured some, and the
/// result says whether the starting workspace is on the blacklist.
pub fn prepare_session(opts: InitArgs) -> (r: Result<PendingSession, Status>)
    ensures
        match client_setup_spec(opts.client@, opt_view(opts.image)) {
            Some((id, custom, img)) => r matches Ok(p) && p.client_id == id && config_matches(
                p.config,
                opts,
                custom,
                img,
            ) && p.blacklisted == blacklisted(opts.workspace_blacklist@, opts.workspace@),
            None => r == Err::<PendingSession, Status>(Status::InvalidClientId),
        },
{
    let InitArgs {
        client,
        image,
        editor_tooltip,
        idle_text,
        idle_tooltip,
        idle_icon,
        viewing_text,
        editing_text,
        file_browser_text,
        plugin_manager_text,
        lsp_manager_text,
        vcs_text,
        workspace_text,
        workspace_blacklist,
        workspace,
        buttons,
        checked_buttons,
        swap_fields,
        swap_icons,
    } = opts;
    let setup = match resolve_client(client.as_str(), image) {
        Ok(s) => s,
        Err(e) => {
            return Err(e);
        },
    };
    let idle_icon = match idle_icon {
        Some(i) => Image::Text(i),
        None => Image::Asset(AssetKind::Editor, text("idle")),
    };
    let (buttons, init_buttons) = match buttons {
        Some(b) => (checked_buttons, b),
        None => (Vec::new(), InitButtons::empty()),
    };
    let blacklisted = contains_text(&workspace_blacklist, workspace.as_str());
    let config = Config {
        is_custom_client: setup.is_custom,
        editor_image: setup.editor_image,
        editor_tooltip,
        idle_text,
        idle_tooltip,
        idle_icon,
        viewing_text,
        editing_text,
        file_browser_text,
        plugin_manager_text,
        lsp_manager_text,
        vcs_text,
        workspace_text,
        workspace,
        workspace_blacklist,
        buttons,
        swap_fields,
        swap_icons,
        init_buttons,
    };
    Ok(PendingSession { client_id: setup.client_id, config, blacklisted })
}

} // verus!
