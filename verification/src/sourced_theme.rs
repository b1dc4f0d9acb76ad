//! Themes and the colours that they were made from.

use vstd::prelude::*;

use crate::wallpaper_theme::Argb;

verus! {

/// A theme as `material_colors` makes it. Nothing inside it is read here.
#[verifier::external_type_specification]
#[verifier::external_body]
pub struct ExTheme(material_colors::theme::Theme);

/// A theme, made from one colour. There is no other way to have one than to make
/// it from its colour.
pub struct SourcedTheme {
    source: Argb,
    theme: material_colors::theme::Theme,
}

/// A theme stands for the colour that it was made from.
impl View for SourcedTheme {
    type V = Argb;

    closed spec fn view(&self) -> Argb {
        self.source
    }
}

impl SourcedTheme {
    /// The colour that it was made from.
    pub fn source(&self) -> (r: Argb)
        ensures
            r == self@,
    {
        self.source
    }

    pub closed spec fn held(&self) -> material_colors::theme::Theme {
        self.theme
    }

    /// The theme itself.
    pub fn theme(&self) -> (r: &material_colors::theme::Theme)
        ensures
            *r == self.held(),
    {
        &self.theme
    }
}

/// `material_colors::theme::ThemeBuilder::with_source` and `build`: a theme out
/// of one colour, kept together with that colour. Nothing is said of what is
/// inside the theme.
#[verifier::external_body]
pub fn theme_from_source_color(source: Argb) -> (r: SourcedTheme)
    ensures
        r@ == source,
{
    SourcedTheme {
        source,
        theme: material_colors::theme::ThemeBuilder::with_source(
            material_colors::color::Argb::new(source.alpha, source.red, source.green, source.blue),
        ).build(),
    }
}

} // verus!
