use vstd::prelude::*;

verus! {

/// Which backend a sound block is asked to use.
#[derive(Debug, Clone, Copy, PartialEq, Eq, Structural)]
pub enum SoundDriver {
    /// The sound server if it can be reached, else the command-line mixer.
    Auto,
    /// The command-line mixer.
    Alsa,
    /// The sound server, falling back to the mixer if it cannot be reached.
    PulseAudio,
}

impl Default for SoundDriver {
    fn default() -> (r: Self)
        ensures
            r == SoundDriver::Auto,
    {
        SoundDriver::Auto
    }
}

/// The largest step width a block uses.
pub const STEP_WIDTH_MAX: u32 = 50;

/// Settings of a sound block.
#[derive(Debug, Clone)]
pub struct SoundConfig {
    pub driver: SoundDriver,
    /// The sink name, or the mixer control name.
    pub name: Option<String>,
    /// The sound card of the mixer.
    pub device: Option<String>,
    /// Whether the mixer reports volumes on its perceptual mapping.
    pub natural_mapping: bool,
    /// Percent by which a scroll moves the volume (at most `STEP_WIDTH_MAX` is used).
    pub step_width: u32,
    /// Template of the displayed text.
    pub format: String,
    /// Shell command run on a left click.
    pub on_click: Option<String>,
    pub show_volume_when_muted: bool,
    /// Show the volume as a bar instead of a percentage.
    pub bar: bool,
}

impl Default for SoundConfig {
    fn default() -> (r: Self)
        ensures
            r.driver == SoundDriver::Auto,
            r.name.is_none(),
            r.device.is_none(),
            !r.natural_mapping,
            r.step_width == 0,
            r.format@.len() == 0,
            r.on_click.is_none(),
            !r.show_volume_when_muted,
            !r.bar,
    {
        SoundConfig {
            driver: SoundDriver::Auto,
            name: None,
            device: None,
            natural_mapping: false,
            step_width: 0,
            format: String::new(),
            on_click: None,
            show_volume_when_muted: false,
            bar: false,
        }
    }
}

impl SoundConfig {
    pub fn default_name() -> (r: Option<String>)
        ensures
            r.is_none(),
    {
        None
    }

    pub fn default_device() -> (r: Option<String>)
        ensures
            r.is_none(),
    {
        None
    }

    pub fn default_natural_mapping() -> (r: bool)
        ensures
            !r,
    {
        false
    }

    pub fn default_step_width() -> (r: u32)
        ensures
            r == 5,
    {
        5
    }

    pub fn default_format() -> (r: String)
        ensures
            r@ == "{volume}%"@,
    {
        "{volume}%".to_owned()
    }

    pub fn default_on_click() -> (r: Option<String>)
        ensures
            r.is_none(),
    {
        None
    }

    pub fn default_show_volume_when_muted() -> (r: bool)
        ensures
            !r,
    {
        false
    }

    pub fn default_bar() -> (r: bool)
        ensures
            !r,
    {
        false
    }
}

} // verus!
