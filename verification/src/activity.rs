//! The fields of the activity a presence is sent as.

use vstd::prelude::*;
use crate::assets::{Image, ImageSpec};
use crate::config::{ActivityButton, Config};
use crate::presence::{Presence, PresenceSpec};
use crate::text::{fill, fill_placeholder, is_empty};

verus! {

/// The text fields and images of an activity.
pub struct ActivityFields {
    pub details: String,
    pub state: String,
    pub large_image: Image,
    pub large_text: String,
    pub small_image: Image,
    pub small_text: String,
}

/// The abstract value of [`ActivityFields`].
pub struct ActivityFieldsSpec {
    pub details: Seq<char>,
    pub state: Seq<char>,
    pub large_image: ImageSpec,
    pub large_text: Seq<char>,
    pub small_image: ImageSpec,
    pub small_text: Seq<char>,
}

impl View for ActivityFields {
    type V = ActivityFieldsSpec;

    open spec fn view(&self) -> ActivityFieldsSpec {
        ActivityFieldsSpec {
            details: self.details@,
            state: self.state@,
            large_image: self.large_image@,
            large_text: self.large_text@,
            small_image: self.small_image@,
            small_text: self.small_text@,
        }
    }
}

/// An activity: its text fields and images, when the editor's timer started,
/// and its buttons.
pub struct Activity {
    pub fields: ActivityFields,
    pub start_time: Option<u128>,
    pub buttons: Vec<ActivityButton>,
}

/// The state line: the workspace text filled with the workspace's name, or
/// nothing when there is no workspace.
pub open spec fn workspace_state(c: Config) -> Seq<char> {
    if c.workspace@.len() == 0 {
        Seq::<char>::empty()
    } else {
        fill(c.workspace_text@, c.workspace@)
    }
}

/// The layout of a presence `p` with settings `c`: the presence's details and
/// the workspace state, swapped when the settings ask to swap fields; the
/// presence's image and tooltip as the large ones and the editor's as the
/// small ones, swapped when the settings ask to swap icons.
pub open spec fn fields_spec(c: Config, p: PresenceSpec) -> ActivityFieldsSpec {
    let (details, state) = if c.swap_fields {
        (workspace_state(c), p.details)
    } else {
        (p.details, workspace_state(c))
    };
    if c.swap_icons {
        ActivityFieldsSpec {
            details,
            state,
            large_image: c.editor_image@,
            large_text: c.editor_tooltip@,
            small_image: p.large_image,
            small_text: p.large_text,
        }
    } else {
        ActivityFieldsSpec {
            details,
            state,
            large_image: p.large_image,
            large_text: p.large_text,
            small_image: c.editor_image@,
            small_text: c.editor_tooltip@,
        }
    }
}

/// Lays out a presence as an activity: the presence's details line and the
/// workspace state, swapped when the settings ask to swap fields; the
/// presence's image and tooltip as the large image and the editor's as the
/// small one, swapped when the settings ask to swap icons.
pub fn activity_fields(c: &Config, p: Presence) -> (a: ActivityFields)
    ensures
        c.swap_fields ==> a.details@ == workspace_state(*c) && a.state@ == p.details@,
        !c.swap_fields ==> a.details@ == p.details@ && a.state@ == workspace_state(*c),
        c.swap_icons ==> a.large_image@ == c.editor_image@ && a.large_text@ == c.editor_tooltip@
            && a.small_image@ == p.large_image@ && a.small_text@ == p.large_text@,
        !c.swap_icons ==> a.large_image@ == p.large_image@ && a.large_text@ == p.large_text@
            && a.small_image@ == c.editor_image@ && a.small_text@ == c.editor_tooltip@,
        a@ == fields_spec(*c, p@),
{
    let state = if is_empty(c.workspace.as_str()) {
        String::new()
    } else {
        fill_placeholder(c.workspace_text.as_str(), c.workspace.as_str())
    };
    let Presence { details, large_image, large_text } = p;
    let (details, state) = if c.swap_fields {
        (state, details)
    } else {
        (details, state)
    };
    let editor_image = c.editor_image.duplicate();
    let editor_tooltip = c.editor_tooltip.clone();
    if c.swap_icons {
        ActivityFields {
            details,
            state,
            large_image: editor_image,
            large_text: editor_tooltip,
            small_image: large_image,
            small_text: large_text,
        }
    } else {
        ActivityFields {
            details,
            state,
            large_image,
            large_text,
            small_image: editor_image,
            small_text: editor_tooltip,
        }
    }
}

/// A copy of a list of buttons.
fn copy_buttons(b: &Vec<ActivityButton>) -> (r: Vec<ActivityButton>)
    ensures
        r@ == b@,
{
    let mut r: Vec<ActivityButton> = Vec::new();
    let mut i: usize = 0;
    while i < b.len()
        invariant
            i <= b@.len(),
            r@ == b@.take(i as int),
        decreases b@.len() - i,
    {
        r.push(ActivityButton { label: b[i].label.clone(), url: b[i].url.clone() });
        assert(b@.take(i + 1) =~= b@.take(i as int).push(b@[i as int]));
        i = i + 1;
    }
    assert(b@.take(b@.len() as int) =~= b@);
    r
}

/// The activity a presence is sent as: its layout with settings `c`, the
/// start of the editor's timer `start_time`, and the configured buttons.
pub fn activity_of(c: &Config, start_time: Option<u128>, p: Presence) -> (a: Activity)
    ensures
        a.fields@ == fields_spec(*c, p@),
        a.start_time == start_time,
        a.buttons@ == c.buttons@,
{
    let buttons = copy_buttons(&c.buttons);
    Activity { fields: activity_fields(c, p), start_time, buttons }
}

} // verus!
