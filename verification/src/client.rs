//! Which Discord application a session talks to, and the editor's image.

use vstd::prelude::*;
use crate::assets::{AssetKind, Image, ImageSpec};
use crate::number::{parse_u64, parse_u64_spec};
use crate::status::Status;
use crate::text::{opt_view, text, text_eq};

verus! {

/// The application id and editor asset of a known editor name.
pub open spec fn known_client(name: Seq<char>) -> Option<(u64, Seq<char>)> {
    if name == "vim"@ {
        Some((1219918645770059796u64, "vim"@))
    } else if name == "neovim"@ {
        Some((1219918880005165137u64, "neovim"@))
    } else if name == "lunarvim"@ {
        Some((1220295374087000104u64, "lunarvim"@))
    } else if name == "nvchad"@ {
        Some((1220296082861326378u64, "nvchad"@))
    } else if name == "astronvim"@ {
        Some((1230866983977746532u64, "astronvim"@))
    } else {
        None
    }
}

/// The application a session talks to and the image that stands for the editor.
pub struct ClientSetup {
    pub client_id: u64,
    /// Whether the id was given as a number rather than by an editor's name.
    pub is_custom: bool,
    pub editor_image: Image,
}

/// What `resolve_client` gives for a client name and an optional image.
pub open spec fn client_setup_spec(client: Seq<char>, image: Option<Seq<char>>) -> Option<
    (u64, bool, ImageSpec),
> {
    match known_client(client) {
        Some((id, asset)) => Some(
            (
                id,
                false,
                match image {
                    Some(i) => ImageSpec::Text(i),
                    None => ImageSpec::Asset(AssetKind::Editor, asset),
                },
            ),
        ),
        None => match parse_u64_spec(client) {
            Some(id) => Some(
                (
                    id,
                    true,
                    match image {
                        Some(i) => ImageSpec::Text(i),
                        None => ImageSpec::Asset(AssetKind::Editor, "neovim"@),
                    },
                ),
            ),
            None => None,
        },
    }
}

fn known(client: &str) -> (r: Option<(u64, String)>)
    ensures
        match known_client(client@) {
            Some((id, asset)) => r matches Some((rid, rasset)) && rid == id && rasset@ == asset,
            None => r is None,
        },
{
    if text_eq(client, "vim") {
        Some((1219918645770059796u64, text("vim")))
    } else if text_eq(client, "neovim") {
        Some((1219918880005165137u64, text("neovim")))
    } else if text_eq(client, "lunarvim") {
        Some((1220295374087000104u64, text("lunarvim")))
    } else if text_eq(client, "nvchad") {
        Some((1220296082861326378u64, text("nvchad")))
    } else if text_eq(client, "astronvim") {
        Some((1230866983977746532u64, text("astronvim")))
    } else {
        None
    }
}

/// Picks the application and the editor image from the editor's client name
/// and the image it gave, if any.
///
/// A known editor name selects its own application and asset; any other name
/// must be a decimal application id, which is then a custom client whose
/// image defaults to the neovim asset. A given image always wins. Any other
/// name is refused with `InvalidClientId`.
pub fn resolve_client(client: &str, image: Option<String>) -> (r: Result<ClientSetup, Status>)
    ensures
        match client_setup_spec(client@, opt_view(image)) {
            Some((id, custom, img)) => r matches Ok(s) && s.client_id == id && s.is_custom
                == custom && s.editor_image@ == img,
            None => r == Err::<ClientSetup, Status>(Status::InvalidClientId),
        },
{
    match known(client) {
        Some((id, asset)) => {
            let editor_image = match image {
                Some(i) => Image::Text(i),
                None => Image::Asset(AssetKind::Editor, asset),
            };
            Ok(ClientSetup { client_id: id, is_custom: false, editor_image })
        },
        None => match parse_u64(client) {
            Some(id) => {
                let editor_image = match image {
                    Some(i) => Image::Text(i),
                    None => Image::Asset(AssetKind::Editor, text("neovim")),
                };
                Ok(ClientSetup { client_id: id, is_custom: true, editor_image })
            },
            None => Err(Status::InvalidClientId),
        },
    }
}

} // verus!
