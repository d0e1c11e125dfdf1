//! Plain configuration values consumed when a system or a window is built.

use vstd::prelude::*;

verus! {

/// Directory holding the three native shared libraries.  Defaults to
/// `/opt/vc/lib`, the vendor's installation path.
pub struct LibDir(pub String);

impl LibDir {
    /// The directory as a path string.
    pub fn path(&self) -> (r: &str)
        ensures
            r@ == self.0@,
    {
        self.0.as_str()
    }
}

impl Default for LibDir {
    fn default() -> (r: Self)
        ensures
            r.0@ == "/opt/vc/lib"@,
    {
        LibDir(String::from_str("/opt/vc/lib"))
    }
}

/// Selectable physical outputs.  Defaults to `Hdmi`.
#[derive(Clone, Copy, PartialEq, Eq, Structural, Debug)]
pub enum Display {
    Hdmi,
    Analog,
    Lcd,
}

/// The numeric output index expected by the compositor's display-size query:
/// the digital output is 2, the analog output 1 and the primary/LCD output 0.
pub open spec fn display_index(d: Display) -> u16 {
    match d {
        Display::Hdmi => 2,
        Display::Analog => 1,
        Display::Lcd => 0,
    }
}

impl Display {
    /// The fixed numeric index of this output, an external contract of the
    /// hardware compositor.
    pub fn index(&self) -> (r: u16)
        ensures
            r == display_index(*self),
    {
        match *self {
            Display::Hdmi => 2,
            Display::Analog => 1,
            Display::Lcd => 0,
        }
    }
}

impl Default for Display {
    fn default() -> (r: Self)
        ensures
            r == Display::Hdmi,
    {
        Display::Hdmi
    }
}

/// Bits per pixel of one color channel.  Defaults to 8.
#[derive(Clone, Copy, PartialEq, Eq, Structural, Debug)]
pub struct ColorBits(pub u32);

impl Default for ColorBits {
    fn default() -> (r: Self)
        ensures
            r.0 == 8,
    {
        ColorBits(8)
    }
}

/// Bits per pixel of the depth buffer.  Defaults to 16.
#[derive(Clone, Copy, PartialEq, Eq, Structural, Debug)]
pub struct DepthBits(pub u32);

impl Default for DepthBits {
    fn default() -> (r: Self)
        ensures
            r.0 == 16,
    {
        DepthBits(16)
    }
}

/// Everything a window construction needs to know: the output to target, an
/// optional explicit surface size (the full display size is used when it is
/// absent), the required red/green/blue channel depths, and optional alpha
/// and depth-buffer depths.
#[derive(Clone, Copy)]
pub struct WindowConfig {
    /// The display output to use.
    pub display: Display,
    /// The size of the surface to render to; the display size when `None`.
    pub surface_size: Option<(u32, u32)>,
    /// Bits per pixel of the red channel.
    pub red: ColorBits,
    /// Bits per pixel of the green channel.
    pub green: ColorBits,
    /// Bits per pixel of the blue channel.
    pub blue: ColorBits,
    /// Bits per pixel of the alpha channel, if one is requested.
    pub alpha: Option<ColorBits>,
    /// Bits per pixel of the depth buffer, if one is requested.
    pub depth: Option<DepthBits>,
}

impl Default for WindowConfig {
    fn default() -> (r: Self)
        ensures
            r.display == Display::Hdmi,
            r.surface_size is None,
            r.red.0 == 8,
            r.green.0 == 8,
            r.blue.0 == 8,
            r.alpha is None,
            r.depth is None,
    {
        WindowConfig {
            display: Display::Hdmi,
            surface_size: None,
            red: ColorBits(8),
            green: ColorBits(8),
            blue: ColorBits(8),
            alpha: None,
            depth: None,
        }
    }
}

} // verus!
