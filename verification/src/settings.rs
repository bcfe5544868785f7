//! The view's configuration and its translation into renderer settings.
//!
//! The settings are captured once at construction and translated once:
//! the antialiasing switch becomes the fixed 4x multisample mode or
//! nothing, and the font bytes and text size are passed through.

use vstd::prelude::*;

verus! {

/// The settings of the view.
#[derive(Clone, Copy, Debug)]
pub struct Settings {
    /// The bytes of the font that will be used by default.
    ///
    /// If `None` is provided, a default system font will be chosen.
    pub default_font: Option<&'static [u8]>,
    /// The default size of text.
    ///
    /// By default, it will be set to 20.
    pub default_text_size: u16,
    /// If set to true, the renderer will try to perform antialiasing for
    /// some primitives, at a performance cost.
    ///
    /// By default, it is disabled.
    pub antialiasing: bool,
}

impl Default for Settings {
    /// The default settings: no embedded font (a system font is
    /// chosen), text size 20, antialiasing off.
    fn default() -> (s: Self)
        ensures
            s.default_font is None,
            s.default_text_size == 20,
            !s.antialiasing,
    {
        Settings { default_font: Option::None, default_text_size: 20, antialiasing: false }
    }
}

/// An antialiasing strategy of the renderer.
#[derive(Clone, Copy, Debug, PartialEq, Eq, Structural)]
pub enum Antialiasing {
    /// Multisample antialiasing with 4 samples per pixel.
    MsaaX4,
}

/// The renderer settings the view's settings translate into.
#[derive(Clone, Copy, Debug)]
pub struct RendererSettings {
    /// The bytes of the default font, passed through.
    pub default_font: Option<&'static [u8]>,
    /// The default size of text, passed through.
    pub default_text_size: u16,
    /// The antialiasing strategy: the fixed 4x multisample mode when the
    /// switch is on, nothing when it is off.
    pub antialiasing: Option<Antialiasing>,
}

impl RendererSettings {
    /// Translates the view's settings: font and text size pass through,
    /// and the antialiasing switch selects the fixed 4x multisample mode
    /// or nothing.
    pub fn from_settings(settings: Settings) -> (r: Self)
        ensures
            r.default_font == settings.default_font,
            r.default_text_size == settings.default_text_size,
            r.antialiasing == if settings.antialiasing {
                Option::Some(Antialiasing::MsaaX4)
            } else {
                Option::<Antialiasing>::None
            },
    {
        RendererSettings {
            default_font: settings.default_font,
            default_text_size: settings.default_text_size,
            antialiasing: if settings.antialiasing {
                Option::Some(Antialiasing::MsaaX4)
            } else {
                Option::None
            },
        }
    }
}

impl From<Settings> for RendererSettings {
    fn from(settings: Settings) -> (r: Self) {
        RendererSettings::from_settings(settings)
    }
}

impl vstd::std_specs::convert::FromSpecImpl<Settings> for RendererSettings {
    open spec fn obeys_from_spec() -> bool {
        true
    }

    open spec fn from_spec(settings: Settings) -> Self {
        RendererSettings {
            default_font: settings.default_font,
            default_text_size: settings.default_text_size,
            antialiasing: if settings.antialiasing {
                Option::Some(Antialiasing::MsaaX4)
            } else {
                Option::None
            },
        }
    }
}

} // verus!
