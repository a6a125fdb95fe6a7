//! The icon files that the application loads: one set per theme, at every
//! rendered size.
use vstd::prelude::*;

use crate::util::{sized_icon_name, sized_icon_name_text};

verus! {

/// The three kinds of icon: the window icon, and the tray icons for dark and
/// for light themes.
#[derive(Clone, Copy, Debug, PartialEq, Eq, Structural)]
pub enum IconTheme {
    Icon,
    IconDark,
    IconLight,
}

/// The file name prefix of a kind of icon.
pub open spec fn theme_name(theme: IconTheme) -> Seq<char> {
    match theme {
        IconTheme::Icon => "icon"@,
        IconTheme::IconDark => "icon_dark"@,
        IconTheme::IconLight => "icon_light"@,
    }
}

/// Law: the three kinds of icon have the prefixes `icon`, `icon_dark` and
/// `icon_light`, and no two kinds share a prefix, so each kind loads its own
/// files.
pub proof fn lemma_theme_names(a: IconTheme, b: IconTheme)
    ensures
        theme_name(IconTheme::Icon) == seq!['i', 'c', 'o', 'n'],
        theme_name(IconTheme::IconDark) == seq!['i', 'c', 'o', 'n', '_', 'd', 'a', 'r', 'k'],
        theme_name(IconTheme::IconLight) == seq!['i', 'c', 'o', 'n', '_', 'l', 'i', 'g', 'h', 't'],
        theme_name(a) == theme_name(b) ==> a == b,
{
    reveal_strlit("icon");
    reveal_strlit("icon_dark");
    reveal_strlit("icon_light");
    let i = seq!['i', 'c', 'o', 'n'];
    let d = seq!['i', 'c', 'o', 'n', '_', 'd', 'a', 'r', 'k'];
    let l = seq!['i', 'c', 'o', 'n', '_', 'l', 'i', 'g', 'h', 't'];
    assert(theme_name(IconTheme::Icon) =~= i);
    assert(theme_name(IconTheme::IconDark) =~= d);
    assert(theme_name(IconTheme::IconLight) =~= l);
    assert(i != d) by {
        assert(i.len() != d.len());
    }
    assert(i != l) by {
        assert(i.len() != l.len());
    }
    assert(d != l) by {
        assert(d.len() != l.len());
    }
}

impl IconTheme {
    /// The file name prefix of this kind of icon.
    pub fn name(&self) -> (r: &'static str)
        ensures
            r@ == theme_name(*self),
    {
        match self {
            IconTheme::Icon => "icon",
            IconTheme::IconDark => "icon_dark",
            IconTheme::IconLight => "icon_light",
        }
    }
}

/// The file that holds the `theme` icon at `size` pixels.
pub fn icon_file_name(theme: IconTheme, size: u16) -> (r: String)
    ensures
        r@ == sized_icon_name(theme_name(theme), size as nat),
{
    sized_icon_name_text(theme.name(), size)
}

/// The tray icon that suits the window theme: the light-theme icon on a light
/// theme, the dark-theme icon on any other.
pub fn tray_icon_theme(light: bool) -> (r: IconTheme)
    ensures
        r == (if light {
            IconTheme::IconLight
        } else {
            IconTheme::IconDark
        }),
{
    if light {
        IconTheme::IconLight
    } else {
        IconTheme::IconDark
    }
}

} // verus!
