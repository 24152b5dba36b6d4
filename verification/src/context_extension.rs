//! A theme shared by every view of a program, and the panel that shows it.

use crate::color::Hsla;
use std::ops::Deref;
use std::ops::DerefMut;
use std::sync::Arc;
use vstd::prelude::*;

verus! {

/// The three colours that the views of a program are painted with.
#[derive(Debug, PartialEq, Eq)]
pub struct Theme {
    pub fg: Hsla,
    pub bg: Hsla,
    pub accent: Hsla,
}

impl Theme {
    /// The theme that a program starts with: light grey text on a dark
    /// blue-grey ground, with a sky-blue accent, all fully opaque.
    pub open spec fn spec_default() -> Theme {
        Theme {
            fg: Hsla { h: 220, s: 9, l: 72, a: 100 },
            bg: Hsla { h: 220, s: 14, l: 18, a: 100 },
            accent: Hsla { h: 207, s: 82, l: 66, a: 100 },
        }
    }

    /// Each of the three colours lies within its scales.
    pub open spec fn in_range(self) -> bool {
        &&& self.fg.in_range()
        &&& self.bg.in_range()
        &&& self.accent.in_range()
    }

    /// The theme held by the program-wide slot `global`.
    pub fn get_global(global: &GlobalTheme) -> (theme: &Arc<Theme>)
        ensures
            *theme == global.0,
    {
        &global.0
    }
}

impl Default for Theme {
    fn default() -> (theme: Theme)
        ensures
            theme == Theme::spec_default(),
            theme.in_range(),
    {
        Theme {
            fg: Hsla { h: 220, s: 9, l: 72, a: 100 },
            bg: Hsla { h: 220, s: 14, l: 18, a: 100 },
            accent: Hsla { h: 207, s: 82, l: 66, a: 100 },
        }
    }
}

impl Clone for Theme {
    fn clone(&self) -> (theme: Theme)
        ensures
            theme == *self,
    {
        Theme { fg: self.fg, bg: self.bg, accent: self.accent }
    }
}

/// The program-wide slot for the theme: set once at start-up, read by every
/// view that draws.
#[derive(Clone, Debug)]
pub struct GlobalTheme(pub Arc<Theme>);

impl Deref for GlobalTheme {
    type Target = Arc<Theme>;

    fn deref(&self) -> (theme: &Arc<Theme>)
        ensures
            *theme == self.0,
    {
        &self.0
    }
}

impl DerefMut for GlobalTheme {
    fn deref_mut(&mut self) -> (theme: &mut Arc<Theme>)
        ensures
            *theme == old(self).0,
            final(self).0 == *final(theme),
    {
        &mut self.0
    }
}

/// One round patch of colour.
#[derive(Clone, Copy, Debug, PartialEq, Eq)]
pub struct Swatch {
    pub fill: Hsla,
    pub border: Hsla,
}

/// What the theme panel shows: a caption over a row of swatches.
#[derive(Debug, PartialEq, Eq)]
pub struct ThemePanel {
    pub text_color: Hsla,
    pub background: Hsla,
    pub caption: &'static str,
    pub swatches: Vec<Swatch>,
}

/// The outline of every swatch: white, let through at twelve parts in a
/// hundred.
pub open spec fn swatch_border() -> Hsla {
    Hsla { h: 0, s: 0, l: 100, a: 12 }
}

/// The swatch that shows `fill`.
pub open spec fn swatch_of(fill: Hsla) -> Swatch {
    Swatch { fill, border: swatch_border() }
}

/// The view that shows the colours of the theme in force.
pub struct AppExtensionExample {}

impl AppExtensionExample {
    /// Describes the panel under `theme`: text in the foreground colour on the
    /// background colour, and one swatch each for foreground, background and
    /// accent, in that order.
    pub fn render(&self, theme: &Theme) -> (panel: ThemePanel)
        ensures
            panel.text_color == theme.fg,
            panel.background == theme.bg,
            panel.caption@ == "Our theme colors!"@,
            panel.swatches@ == seq![
                swatch_of(theme.fg),
                swatch_of(theme.bg),
                swatch_of(theme.accent),
            ],
    {
        let border = Hsla { h: 0, s: 0, l: 100, a: 12 };
        let mut swatches: Vec<Swatch> = Vec::new();
        swatches.push(Swatch { fill: theme.fg, border });
        swatches.push(Swatch { fill: theme.bg, border });
        swatches.push(Swatch { fill: theme.accent, border });
        ThemePanel {
            text_color: theme.fg,
            background: theme.bg,
            caption: "Our theme colors!",
            swatches,
        }
    }
}

} // verus!
