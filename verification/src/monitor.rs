//! The display effects that a frame is shown with.

use vstd::prelude::*;

verus! {

/// A number in IEEE 754 single precision, held by its 32 bits.
#[derive(Clone, Copy, Debug, PartialEq, Eq, Structural)]
pub struct FloatBits {
    pub bits: u32,
}

impl FloatBits {
    /// The number whose bit pattern is `bits`.
    pub fn from_bits(bits: u32) -> (value: FloatBits)
        ensures
            value == (FloatBits { bits }),
    {
        FloatBits { bits }
    }

    pub fn to_bits(&self) -> (bits: u32)
        ensures
            bits == self.bits,
    {
        self.bits
    }
}

/// The bit pattern of ten.
pub const BITS_OF_10: u32 = 0x4120_0000;

/// The bit pattern of thirty.
pub const BITS_OF_30: u32 = 0x41F0_0000;

/// The bit pattern of forty.
pub const BITS_OF_40: u32 = 0x4220_0000;

/// The bit pattern of fifty.
pub const BITS_OF_50: u32 = 0x4248_0000;

/// A colour with its opacity.
#[derive(Clone, Copy, Debug, PartialEq, Eq, Structural)]
pub struct Rgba {
    pub r: u8,
    pub g: u8,
    pub b: u8,
    pub a: u8,
}

impl Rgba {
    /// The opaque colour `(r, g, b)`.
    pub fn from_rgb(r: u8, g: u8, b: u8) -> (color: Rgba)
        ensures
            color == (Rgba { r, g, b, a: 255 }),
    {
        Rgba { r, g, b, a: 255 }
    }
}

/// What is drawn behind the canvas.
#[derive(Clone, Copy, Debug, PartialEq, Eq, Structural)]
pub enum BackgroundEffect {
    /// Nothing is drawn behind the canvas.
    Off,
    Checkers,
}

/// The parameters of the monitor effect.
#[derive(Clone, Copy, Debug, PartialEq, Eq, Structural)]
pub struct MonitorSettings {
    pub use_filter: bool,
    pub monitor_type: usize,
    pub gamma: FloatBits,
    pub contrast: FloatBits,
    pub saturation: FloatBits,
    pub brightness: FloatBits,
    pub light: FloatBits,
    pub blur: FloatBits,
    pub curvature: FloatBits,
    pub scanlines: FloatBits,
    pub background_effect: BackgroundEffect,
    pub selection_fg: Rgba,
    pub selection_bg: Rgba,
}

/// The monitor parameters that a script sets between two frames.
#[derive(Clone, Copy, Debug, PartialEq, Eq, Structural)]
pub struct MonitorGlobals {
    pub monitor_type: usize,
    pub gamma: FloatBits,
    pub contrast: FloatBits,
    pub saturation: FloatBits,
    pub brightness: FloatBits,
    pub blur: FloatBits,
    pub curvature: FloatBits,
    pub scanlines: FloatBits,
}

impl MonitorSettings {
    /// No filter, the first monitor type, gamma, contrast and saturation at
    /// fifty, brightness and blur at thirty, light at forty, curvature and
    /// scanlines at ten, no background effect, selection in magenta on grey.
    pub open spec fn initial() -> MonitorSettings {
        MonitorSettings {
            use_filter: false,
            monitor_type: 0,
            gamma: FloatBits { bits: BITS_OF_50 },
            contrast: FloatBits { bits: BITS_OF_50 },
            saturation: FloatBits { bits: BITS_OF_50 },
            brightness: FloatBits { bits: BITS_OF_30 },
            light: FloatBits { bits: BITS_OF_40 },
            blur: FloatBits { bits: BITS_OF_30 },
            curvature: FloatBits { bits: BITS_OF_10 },
            scanlines: FloatBits { bits: BITS_OF_10 },
            background_effect: BackgroundEffect::Off,
            selection_fg: Rgba { r: 0xAB, g: 0x00, b: 0xAB, a: 255 },
            selection_bg: Rgba { r: 0xAB, g: 0xAB, b: 0xAB, a: 255 },
        }
    }

    /// These settings with the parameters that a script sets taken from
    /// `globals`.
    pub open spec fn with_globals(self, globals: MonitorGlobals) -> MonitorSettings {
        MonitorSettings {
            monitor_type: globals.monitor_type,
            gamma: globals.gamma,
            contrast: globals.contrast,
            saturation: globals.saturation,
            brightness: globals.brightness,
            blur: globals.blur,
            curvature: globals.curvature,
            scanlines: globals.scanlines,
            ..self
        }
    }

    /// The parameters that a script sets, as these settings have them.
    pub open spec fn globals_of(self) -> MonitorGlobals {
        MonitorGlobals {
            monitor_type: self.monitor_type,
            gamma: self.gamma,
            contrast: self.contrast,
            saturation: self.saturation,
            brightness: self.brightness,
            blur: self.blur,
            curvature: self.curvature,
            scanlines: self.scanlines,
        }
    }

    /// Takes from `globals` the parameters that a script sets.
    pub fn apply_globals(&mut self, globals: &MonitorGlobals)
        ensures
            *final(self) == old(self).with_globals(*globals),
    {
        self.monitor_type = globals.monitor_type;
        self.gamma = globals.gamma;
        self.contrast = globals.contrast;
        self.saturation = globals.saturation;
        self.brightness = globals.brightness;
        self.blur = globals.blur;
        self.curvature = globals.curvature;
        self.scanlines = globals.scanlines;
    }

    /// The parameters that a script sets, as these settings have them.
    pub fn globals(&self) -> (globals: MonitorGlobals)
        ensures
            globals == self.globals_of(),
    {
        MonitorGlobals {
            monitor_type: self.monitor_type,
            gamma: self.gamma,
            contrast: self.contrast,
            saturation: self.saturation,
            brightness: self.brightness,
            blur: self.blur,
            curvature: self.curvature,
            scanlines: self.scanlines,
        }
    }
}

impl Default for MonitorSettings {
    fn default() -> (settings: MonitorSettings)
        ensures
            settings == MonitorSettings::initial(),
    {
        MonitorSettings {
            use_filter: false,
            monitor_type: 0,
            gamma: FloatBits::from_bits(BITS_OF_50),
            contrast: FloatBits::from_bits(BITS_OF_50),
            saturation: FloatBits::from_bits(BITS_OF_50),
            brightness: FloatBits::from_bits(BITS_OF_30),
            light: FloatBits::from_bits(BITS_OF_40),
            blur: FloatBits::from_bits(BITS_OF_30),
            curvature: FloatBits::from_bits(BITS_OF_10),
            scanlines: FloatBits::from_bits(BITS_OF_10),
            background_effect: BackgroundEffect::Off,
            selection_fg: Rgba::from_rgb(0xAB, 0x00, 0xAB),
            selection_bg: Rgba::from_rgb(0xAB, 0xAB, 0xAB),
        }
    }
}

} // verus!
