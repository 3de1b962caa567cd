use crate::button::ThemeRole;
use vstd::prelude::*;

verus! {

/// The tag shown after a framed component's title.
#[derive(Clone, Copy, Debug, PartialEq, Eq, Structural)]
pub enum Badge {
    ReadOnly,
    Editing,
    Active,
    Selected,
}

/// How a framed component (a textbox, the terminal) is drawn: the border,
/// the fill, the line-number gutter and the badge after the title.
#[derive(Clone, Copy, Debug, PartialEq, Eq, Structural)]
pub struct FrameLook {
    pub border: ThemeRole,
    pub surface: ThemeRole,
    pub gutter: ThemeRole,
    pub badge: Option<Badge>,
}

/// A framed component stands out (primary border and gutter, a raised
/// fill) while it is selected or focused.
pub open spec fn spec_frame_colors(highlighted: bool, badge: Option<Badge>) -> FrameLook {
    if highlighted {
        FrameLook { border: ThemeRole::Primary, surface: ThemeRole::SurfaceVariant, gutter: ThemeRole::Primary, badge }
    } else {
        FrameLook { border: ThemeRole::OutlineVariant, surface: ThemeRole::Surface, gutter: ThemeRole::OnSurfaceVariant, badge }
    }
}

fn frame_colors(highlighted: bool, badge: Option<Badge>) -> (l: FrameLook)
    ensures
        l == spec_frame_colors(highlighted, badge),
{
    if highlighted {
        FrameLook { border: ThemeRole::Primary, surface: ThemeRole::SurfaceVariant, gutter: ThemeRole::Primary, badge }
    } else {
        FrameLook { border: ThemeRole::OutlineVariant, surface: ThemeRole::Surface, gutter: ThemeRole::OnSurfaceVariant, badge }
    }
}

/// A textbox's frame: badged "read only" when it is, else "editing" while
/// focused, else "selected" while selected.
pub open spec fn spec_textbox_frame_look(focused: bool, selected: bool, read_only: bool) -> FrameLook {
    let badge = if read_only {
        Some(Badge::ReadOnly)
    } else if focused {
        Some(Badge::Editing)
    } else if selected {
        Some(Badge::Selected)
    } else {
        None
    };
    spec_frame_colors(focused || selected, badge)
}

/// A textbox's frame.
pub fn textbox_frame_look(focused: bool, selected: bool, read_only: bool) -> (l: FrameLook)
    ensures
        l == spec_textbox_frame_look(focused, selected, read_only),
{
    let badge = if read_only {
        Some(Badge::ReadOnly)
    } else if focused {
        Some(Badge::Editing)
    } else if selected {
        Some(Badge::Selected)
    } else {
        None
    };
    frame_colors(focused || selected, badge)
}

/// The terminal's frame: badged "active" while focused, else "selected"
/// while selected.
pub open spec fn spec_terminal_frame_look(focused: bool, selected: bool) -> FrameLook {
    let badge = if focused {
        Some(Badge::Active)
    } else if selected {
        Some(Badge::Selected)
    } else {
        None
    };
    spec_frame_colors(focused || selected, badge)
}

/// The terminal's frame.
pub fn terminal_frame_look(focused: bool, selected: bool) -> (l: FrameLook)
    ensures
        l == spec_terminal_frame_look(focused, selected),
{
    let badge = if focused {
        Some(Badge::Active)
    } else if selected {
        Some(Badge::Selected)
    } else {
        None
    };
    frame_colors(focused || selected, badge)
}

/// The text of a badge.
pub open spec fn spec_badge_label(b: Badge) -> Seq<char> {
    match b {
        Badge::ReadOnly => "read only"@,
        Badge::Editing => "editing"@,
        Badge::Active => "active"@,
        Badge::Selected => "selected"@,
    }
}

/// The text of a badge.
pub fn badge_label(b: Badge) -> (label: &'static str)
    ensures
        label@ == spec_badge_label(b),
{
    match b {
        Badge::ReadOnly => "read only",
        Badge::Editing => "editing",
        Badge::Active => "active",
        Badge::Selected => "selected",
    }
}

/// The label and fill roles of a badge: tertiary for read only, primary for
/// editing or active, secondary for selected.
pub open spec fn spec_badge_roles(b: Badge) -> (ThemeRole, ThemeRole) {
    match b {
        Badge::ReadOnly => (ThemeRole::OnTertiaryContainer, ThemeRole::TertiaryContainer),
        Badge::Editing => (ThemeRole::OnPrimaryContainer, ThemeRole::PrimaryContainer),
        Badge::Active => (ThemeRole::OnPrimaryContainer, ThemeRole::PrimaryContainer),
        Badge::Selected => (ThemeRole::OnSecondaryContainer, ThemeRole::SecondaryContainer),
    }
}

/// The label and fill roles of a badge.
pub fn badge_roles(b: Badge) -> (r: (ThemeRole, ThemeRole))
    ensures
        r == spec_badge_roles(b),
{
    match b {
        Badge::ReadOnly => (ThemeRole::OnTertiaryContainer, ThemeRole::TertiaryContainer),
        Badge::Editing => (ThemeRole::OnPrimaryContainer, ThemeRole::PrimaryContainer),
        Badge::Active => (ThemeRole::OnPrimaryContainer, ThemeRole::PrimaryContainer),
        Badge::Selected => (ThemeRole::OnSecondaryContainer, ThemeRole::SecondaryContainer),
    }
}

} // verus!
