//! The diagram renderer's interface: an immutable settings record and a
//! trusted wrapper around the external rendering function.

use vstd::prelude::*;

verus! {

/// Renderer-tuning options, handed by reference into the renderer; the
/// tracker itself is agnostic to their content. Options the renderer keeps
/// at its own defaults are not carried here.
pub struct Settings {
    /// The font family used for text in the drawing.
    pub font_family: String,
    /// The stroke color of lines and shapes.
    pub stroke_color: String,
    /// The background color of the drawing.
    pub background_color: String,
}

/// The model of a settings record.
#[verifier::ext_equal]
pub struct SettingsV {
    pub font_family: Seq<char>,
    pub stroke_color: Seq<char>,
    pub background_color: Seq<char>,
}

impl View for Settings {
    type V = SettingsV;

    open spec fn view(&self) -> SettingsV {
        SettingsV {
            font_family: self.font_family@,
            stroke_color: self.stroke_color@,
            background_color: self.background_color@,
        }
    }
}

/// The settings used when the host supplies no configuration: the
/// renderer's own defaults.
pub open spec fn default_settings() -> SettingsV {
    SettingsV {
        font_family: "arial"@,
        stroke_color: "black"@,
        background_color: "white"@,
    }
}

impl Default for Settings {
    fn default() -> (r: Settings)
        ensures
            r@ == default_settings(),
    {
        Settings {
            font_family: "arial".to_owned(),
            stroke_color: "black".to_owned(),
            background_color: "white".to_owned(),
        }
    }
}

/// What rendering diagram text under given settings yields: the renderer is
/// treated as a pure, total function of the two.
pub uninterp spec fn render_of(text: Seq<char>, s: SettingsV) -> Seq<char>;

/// Relies on svgbob (Grid::from_str and Grid::get_svg): the svg markup is a
/// function of the diagram text and the settings alone, and rendering never
/// fails.
#[verifier::external_body]
pub(crate) fn render_diagram(text: &str, settings: &Settings) -> (r: String)
    ensures
        r@ == render_of(text@, settings@),
{
    let mut s = svgbob::Settings::default();
    s.font_family = settings.font_family.clone();
    s.stroke_color = settings.stroke_color.clone();
    s.background_color = settings.background_color.clone();
    svgbob::Grid::from_str(text, &s).get_svg().to_string()
}

} // verus!
