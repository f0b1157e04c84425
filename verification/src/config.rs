//! Runtime configuration.
//!
//! Defaults match the Waveshare SKU 27579 wiring in BCM numbering. Everything
//! here is overridable so a differently wired board or a clone module with a
//! different touch address does not need a rebuild.
//!
//! The file is optional: a missing file means the reference wiring. A file
//! that exists but holds a bad value is an error, reported by [`Config::validate`].

use vstd::prelude::*;

verus! {

broadcast use vstd::string::group_string_axioms;

/// How the renderer talks to the panel.
///
/// `spi` owns `/dev/spidev0.0` and the DC/reset/backlight GPIOs. `framebuffer`
/// draws into an existing `/dev/fbN` and claims none of those lines, so it can
/// run while fbtft holds the bus for Plymouth.
#[derive(Debug, Clone, Copy, PartialEq, Eq, Structural)]
pub enum Backend {
    Spi,
    Framebuffer,
}

impl Default for Backend {
    fn default() -> (b: Self)
        ensures
            b == Backend::Spi,
    {
        Backend::Spi
    }
}

/// Status-screen type size: hostname, addresses, startup footer.
///
/// `large` is the biggest stock mono font, 10 by 20. Large mode wraps; it
/// does not scale one line.
#[derive(Debug, Clone, Copy, PartialEq, Eq, Structural)]
pub enum StatusText {
    Normal,
    Large,
}

impl Default for StatusText {
    fn default() -> (s: Self)
        ensures
            s == StatusText::Normal,
    {
        StatusText::Normal
    }
}

/// Vertical space between the volume slider and the progress bar.
///
/// Named steps, not pixels. The face boxes supersede the gap geometry; the
/// key is kept so existing files stay valid.
#[derive(Debug, Clone, Copy, PartialEq, Eq, Structural)]
pub enum BarGap {
    Tight,
    Default,
    Roomy,
}

impl Default for BarGap {
    fn default() -> (g: Self)
        ensures
            g == BarGap::Default,
    {
        BarGap::Default
    }
}

/// What occupies the slot between the dock and the bottom of the face.
///
/// Default is the progress bar. `stream` paints the IN fields the source
/// wrote. `off` leaves the slot out and gives the room to the art.
#[derive(Debug, Clone, Copy, PartialEq, Eq, Structural)]
pub enum Strip {
    Progress,
    Stream,
    Off,
}

impl Default for Strip {
    fn default() -> (s: Self)
        ensures
            s == Strip::Progress,
    {
        Strip::Progress
    }
}

/// Named colour set. `ink` is the shipped black / white / orange panel;
/// `night` is amber type on a near-black ground.
#[derive(Debug, Clone, Copy, PartialEq, Eq, Structural)]
pub enum Theme {
    Ink,
    Dusk,
    Studio,
    Night,
}

impl Default for Theme {
    fn default() -> (t: Self)
        ensures
            t == Theme::Ink,
    {
        Theme::Ink
    }
}

pub open spec fn fbtft_rotate_spec(clockwise: u16) -> u16 {
    if clockwise == 90 {
        270
    } else if clockwise == 270 {
        90
    } else {
        clockwise
    }
}

/// Clockwise degrees to the counter-clockwise value fbtft's `rotate` uses
/// for the same physical orientation.
pub fn fbtft_rotate(clockwise: u16) -> (r: u16)
    ensures
        r == fbtft_rotate_spec(clockwise),
{
    match clockwise {
        90 => 270,
        270 => 90,
        other => other,
    }
}

/// Converting twice gives back the rotation that went in.
pub proof fn fbtft_rotate_is_an_involution(clockwise: u16)
    ensures
        fbtft_rotate_spec(fbtft_rotate_spec(clockwise)) == clockwise,
{
}

/// Panel and host wiring, plus behaviour knobs.
#[derive(Debug, Clone)]
pub struct Config {
    /// Drawing path. See [`Backend`].
    pub backend: Backend,
    /// Framebuffer device used when `backend` is `framebuffer`. Hint only:
    /// the renderer opens the live `fb_st7789v` node.
    pub fb_dev: String,
    /// SPI character device the ST7789V is on.
    pub spi_dev: String,
    /// SPI clock in Hz.
    pub spi_speed_hz: u32,
    /// BCM pin for display data/command.
    pub dc_pin: u32,
    /// BCM pin for display reset.
    pub rst_pin: u32,
    /// BCM pin for the backlight, on or off only.
    pub backlight_pin: u32,
    /// I2C character device the CST328 is on.
    pub i2c_dev: String,
    /// CST328 7-bit address. Customisable in chip firmware, so clones vary.
    pub touch_addr: u16,
    /// BCM pin for the touch interrupt.
    pub touch_int_pin: u32,
    /// BCM pin for the touch reset.
    pub touch_rst_pin: u32,
    /// gpiochip to request lines from.
    pub gpiochip: String,
    /// Display rotation, degrees clockwise: 0, 90, 180 or 270. Touch
    /// coordinates are mapped back through the same value.
    pub rotation: u16,
    /// Status-screen type on portrait rotations (0, 180).
    pub status_text_portrait: StatusText,
    /// Status-screen type on landscape rotations (90, 270).
    pub status_text_landscape: StatusText,
    /// Volume-to-progress gap on portrait rotations.
    pub bar_gap_portrait: BarGap,
    /// Volume-to-progress gap on landscape rotations.
    pub bar_gap_landscape: BarGap,
    /// Strip occupancy on portrait rotations.
    pub strip_portrait: Strip,
    /// Strip occupancy on landscape rotations.
    pub strip_landscape: Strip,
    /// Colour tokens.
    pub theme: Theme,
    /// Volumio state endpoint.
    pub state_url: String,
    /// Volumio system status, plain text `starting` or `ready`.
    pub status_url: String,
    /// Volumio command endpoint base. The `cmd` query is appended.
    pub command_url: String,
    /// Origin the relative `albumart` path from the state API is joined to.
    pub art_base: String,
    /// How often to poll the state, milliseconds.
    pub poll_interval_ms: u64,
    /// Minimum gap between two accepted touches, milliseconds.
    pub touch_debounce_ms: u64,
}

impl Default for Config {
    fn default() -> (c: Self)
        ensures
            c.backend == Backend::Spi,
            c.fb_dev@ == "/dev/fb1"@,
            c.spi_dev@ == "/dev/spidev0.0"@,
            c.spi_speed_hz == 32_000_000,
            c.dc_pin == 25,
            c.rst_pin == 27,
            c.backlight_pin == 18,
            c.i2c_dev@ == "/dev/i2c-1"@,
            c.touch_addr == 0x1a,
            c.touch_int_pin == 4,
            c.touch_rst_pin == 17,
            c.gpiochip@ == "/dev/gpiochip0"@,
            c.rotation == 0,
            c.status_text_portrait == StatusText::Normal,
            c.status_text_landscape == StatusText::Normal,
            c.bar_gap_portrait == BarGap::Default,
            c.bar_gap_landscape == BarGap::Default,
            c.strip_portrait == Strip::Progress,
            c.strip_landscape == Strip::Progress,
            c.theme == Theme::Ink,
            c.state_url@ == "http://localhost:3000/api/v1/getState"@,
            c.status_url@ == "http://localhost:3000/status"@,
            c.command_url@ == "http://localhost:3000/api/v1/commands/"@,
            c.art_base@ == "http://localhost:3000"@,
            c.poll_interval_ms == 500,
            c.touch_debounce_ms == 300,
    {
        Config {
            backend: Backend::Spi,
            fb_dev: "/dev/fb1".to_string(),
            spi_dev: "/dev/spidev0.0".to_string(),
            spi_speed_hz: 32_000_000,
            dc_pin: 25,
            rst_pin: 27,
            backlight_pin: 18,
            i2c_dev: "/dev/i2c-1".to_string(),
            touch_addr: 0x1a,
            touch_int_pin: 4,
            touch_rst_pin: 17,
            gpiochip: "/dev/gpiochip0".to_string(),
            rotation: 0,
            status_text_portrait: StatusText::Normal,
            status_text_landscape: StatusText::Normal,
            bar_gap_portrait: BarGap::Default,
            bar_gap_landscape: BarGap::Default,
            strip_portrait: Strip::Progress,
            strip_landscape: Strip::Progress,
            theme: Theme::Ink,
            state_url: "http://localhost:3000/api/v1/getState".to_string(),
            status_url: "http://localhost:3000/status".to_string(),
            command_url: "http://localhost:3000/api/v1/commands/".to_string(),
            art_base: "http://localhost:3000".to_string(),
            poll_interval_ms: 500,
            touch_debounce_ms: 300,
        }
    }
}

/// Why a configuration was refused. Each names the offending key.
#[derive(Debug, Clone, Copy, PartialEq, Eq, Structural)]
pub enum ConfigError {
    /// `rotation` is not 0, 90, 180 or 270; carries the value given.
    Rotation(u16),
    /// `touch_addr` does not fit in 7 bits; carries the value given.
    TouchAddr(u16),
    /// `poll_interval_ms` is zero.
    PollInterval,
    /// `spi_speed_hz` is zero.
    SpiSpeed,
    /// `fb_dev` is empty.
    FbDev,
    /// `spi_dev` is empty.
    SpiDev,
}

pub open spec fn valid_rotation(r: u16) -> bool {
    r == 0 || r == 90 || r == 180 || r == 270
}

pub open spec fn is_landscape(r: u16) -> bool {
    r == 90 || r == 270
}

impl Config {
    /// The first check `validate` fails, in the order the checks run.
    pub open spec fn first_fault(&self) -> Option<ConfigError> {
        if !valid_rotation(self.rotation) {
            Some(ConfigError::Rotation(self.rotation))
        } else if self.touch_addr > 0x7f {
            Some(ConfigError::TouchAddr(self.touch_addr))
        } else if self.poll_interval_ms == 0 {
            Some(ConfigError::PollInterval)
        } else if self.spi_speed_hz == 0 {
            Some(ConfigError::SpiSpeed)
        } else if self.fb_dev@.len() == 0 {
            Some(ConfigError::FbDev)
        } else if self.spi_dev@.len() == 0 {
            Some(ConfigError::SpiDev)
        } else {
            None
        }
    }

    /// Reject values that would fail later in a less obvious place, so a
    /// bad file is reported at startup next to the filename.
    pub fn validate(&self) -> (r: Result<(), ConfigError>)
        ensures
            r is Ok <==> self.first_fault() is None,
            r matches Err(e) ==> self.first_fault() == Some(e),
    {
        if !(self.rotation == 0 || self.rotation == 90 || self.rotation == 180 || self.rotation
            == 270) {
            return Err(ConfigError::Rotation(self.rotation));
        }
        if self.touch_addr > 0x7f {
            return Err(ConfigError::TouchAddr(self.touch_addr));
        }
        if self.poll_interval_ms == 0 {
            return Err(ConfigError::PollInterval);
        }
        if self.spi_speed_hz == 0 {
            return Err(ConfigError::SpiSpeed);
        }
        if self.fb_dev.as_str().is_empty() {
            return Err(ConfigError::FbDev);
        }
        if self.spi_dev.as_str().is_empty() {
            return Err(ConfigError::SpiDev);
        }
        Ok(())
    }

    /// Status type for the configured rotation.
    pub fn status_text(&self) -> (s: StatusText)
        ensures
            s == if is_landscape(self.rotation) {
                self.status_text_landscape
            } else {
                self.status_text_portrait
            },
    {
        if self.rotation == 90 || self.rotation == 270 {
            self.status_text_landscape
        } else {
            self.status_text_portrait
        }
    }

    /// Bar gap for the configured rotation.
    pub fn bar_gap(&self) -> (g: BarGap)
        ensures
            g == if is_landscape(self.rotation) {
                self.bar_gap_landscape
            } else {
                self.bar_gap_portrait
            },
    {
        if self.rotation == 90 || self.rotation == 270 {
            self.bar_gap_landscape
        } else {
            self.bar_gap_portrait
        }
    }

    /// Strip occupancy for the configured rotation.
    pub fn strip(&self) -> (s: Strip)
        ensures
            s == if is_landscape(self.rotation) {
                self.strip_landscape
            } else {
                self.strip_portrait
            },
    {
        if self.rotation == 90 || self.rotation == 270 {
            self.strip_landscape
        } else {
            self.strip_portrait
        }
    }
}

} // verus!
