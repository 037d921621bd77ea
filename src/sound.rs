use vstd::prelude::*;

use crate::config::{SoundConfig, SoundDriver, STEP_WIDTH_MAX};
use crate::client::{PulseAudioClient, Request};
use crate::device::{AlsaSoundDevice, PulseAudioSoundDevice, SoundDevice};
use crate::error::SoundError;
use crate::mixer_output::mixer_reading;

verus! {

/// A mouse button as the status bar reports it.
#[derive(Debug, Clone, Copy, PartialEq, Eq, Structural)]
pub enum MouseButton {
    Left,
    Middle,
    Right,
    WheelUp,
    WheelDown,
    Forward,
    Back,
    Unknown,
}

/// The direction a scroll means, after the bar's scrolling setting.
#[derive(Debug, Clone, Copy, PartialEq, Eq, Structural)]
pub enum LogicalDirection {
    Up,
    Down,
}

/// What a click on the block asks for.
#[derive(Debug, Clone, PartialEq, Eq)]
pub enum ClickAction {
    ToggleMute,
    RunCommand(String),
    Step(i32),
    Nothing,
}

/// The icon the block shows.
#[derive(Debug, Clone, Copy, PartialEq, Eq, Structural)]
pub enum Icon {
    Muted,
    Empty,
    Half,
    Full,
}

/// What the block shows as its text.
#[derive(Debug, Clone, Copy, PartialEq, Eq, Structural)]
pub enum TextKind {
    Nothing,
    Percent,
    Bar,
}

/// How the block looks for a given volume and mute flag.
#[derive(Debug, Clone, Copy, PartialEq, Eq, Structural)]
pub struct Appearance {
    pub icon: Icon,
    pub text: TextKind,
    pub warning: bool,
}

/// The icon for `volume` percent: muted, else by thresholds at 20 and 70.
pub open spec fn icon_for(volume: nat, muted: bool) -> Icon {
    if muted {
        Icon::Muted
    } else if volume <= 20 {
        Icon::Empty
    } else if volume <= 70 {
        Icon::Half
    } else {
        Icon::Full
    }
}

/// The text shown: none while muted unless asked for, then a bar or a percentage.
pub open spec fn text_for(muted: bool, show_volume_when_muted: bool, bar: bool) -> TextKind {
    if muted && !show_volume_when_muted {
        TextKind::Nothing
    } else if bar {
        TextKind::Bar
    } else {
        TextKind::Percent
    }
}

/// The step width a block uses for a configured one.
pub open spec fn effective_step_width(configured: u32) -> u32 {
    if configured > STEP_WIDTH_MAX {
        STEP_WIDTH_MAX
    } else {
        configured
    }
}

/// A configured step width above `STEP_WIDTH_MAX` is used as `STEP_WIDTH_MAX`;
/// one within it is used as it is.
pub proof fn lemma_step_width_capped(configured: u32)
    ensures
        configured > STEP_WIDTH_MAX ==> effective_step_width(configured) == STEP_WIDTH_MAX,
        configured <= STEP_WIDTH_MAX ==> effective_step_width(configured) == configured,
{
}

impl Icon {
    /// The icon's name in the bar's icon set.
    pub fn name(&self) -> (r: &'static str)
        ensures
            r@ == (match self {
                Icon::Muted => "volume_muted"@,
                Icon::Empty => "volume_empty"@,
                Icon::Half => "volume_half"@,
                Icon::Full => "volume_full"@,
            }),
    {
        match self {
            Icon::Muted => "volume_muted",
            Icon::Empty => "volume_empty",
            Icon::Half => "volume_half",
            Icon::Full => "volume_full",
        }
    }
}

/// A status-bar element that shows and controls the volume of one device.
pub struct Sound {
    /// The block's identifier in the bar.
    pub id: String,
    pub device: SoundDevice,
    /// Percent by which one scroll moves the volume.
    pub step_width: u32,
    /// Template of the displayed text.
    pub format: String,
    /// Shell command run on a left click.
    pub on_click: Option<String>,
    pub show_volume_when_muted: bool,
    pub bar: bool,
}

impl Sound {
    pub open spec fn step_width_spec(&self) -> u32 {
        self.step_width
    }

    /// The step width is at most `STEP_WIDTH_MAX`.
    pub open spec fn wf(&self) -> bool {
        self.step_width <= STEP_WIDTH_MAX
    }

    /// Whether a block configured with `driver` tries the sound server first.
    pub fn uses_sound_server(driver: SoundDriver) -> (r: bool)
        ensures
            r == (driver != SoundDriver::Alsa),
    {
        match driver {
            SoundDriver::Alsa => false,
            _ => true,
        }
    }

    /// The mixer control and sound card of the fallback backend: the
    /// configured ones, else `Master` on `default`.
    pub fn mixer_names(config: &SoundConfig) -> (r: (String, String))
        ensures
            r.0@ == (match config.name {
                Some(n) => n@,
                None => "Master"@,
            }),
            r.1@ == (match config.device {
                Some(d) => d@,
                None => "default"@,
            }),
    {
        let name = match &config.name {
            Some(n) => n.clone(),
            None => "Master".to_owned(),
        };
        let device = match &config.device {
            Some(d) => d.clone(),
            None => "default".to_owned(),
        };
        (name, device)
    }

    /// A block with identifier `id` over `device`; a step width above
    /// `STEP_WIDTH_MAX` is cut down to it.
    pub fn new(config: &SoundConfig, id: String, device: SoundDevice) -> (r: Self)
        ensures
            r.wf(),
            r.step_width_spec() == effective_step_width(config.step_width),
            r.id == id,
            r.device == device,
            r.format@ == config.format@,
            r.show_volume_when_muted == config.show_volume_when_muted,
            r.bar == config.bar,
            match (r.on_click, config.on_click) {
                (Some(a), Some(b)) => a@ == b@,
                (None, None) => true,
                _ => false,
            },
    {
        let mut step_width = config.step_width;
        if step_width > STEP_WIDTH_MAX {
            step_width = STEP_WIDTH_MAX;
        }
        let on_click = match &config.on_click {
            Some(c) => Some(c.clone()),
            None => None,
        };
        Sound {
            id,
            device,
            step_width,
            format: config.format.clone(),
            on_click,
            show_volume_when_muted: config.show_volume_when_muted,
            bar: config.bar,
        }
    }

    /// Makes a block with identifier `id`, choosing its backend.
    ///
    /// The sound server is used when the driver allows it and `server_usable`
    /// says its client connected: the device is made on `client` for the
    /// configured sink (else the default sink), and `id` is registered for
    /// update notifications. Otherwise the block falls back to the mixer,
    /// whose state is read from `mixer_output`, its answer to a query of the
    /// control and card that `mixer_names` gives; malformed output fails the
    /// construction with `Query`, and `client` is left as it is.
    pub fn build(
        config: &SoundConfig,
        id: String,
        client: &mut PulseAudioClient,
        server_usable: bool,
        mixer_output: &[u8],
    ) -> (r: Result<Self, SoundError>)
        requires
            old(client).wf(),
        ensures
            final(client).wf(),
            match r {
                Ok(s) => {
                    &&& s.wf()
                    &&& s.step_width_spec() == effective_step_width(config.step_width)
                    &&& s.id == id
                    &&& s.format@ == config.format@
                    &&& s.show_volume_when_muted == config.show_volume_when_muted
                    &&& s.bar == config.bar
                },
                Err(_) => true,
            },
            if config.driver != SoundDriver::Alsa && server_usable {
                &&& r is Ok
                &&& match r {
                    Ok(s) => match s.device {
                        SoundDevice::PulseAudio(d) => {
                            &&& d.name_spec() == config.name
                            &&& d.levels().is_none()
                            &&& !d.muted_spec()
                        },
                        _ => false,
                    },
                    Err(_) => false,
                }
                &&& final(client).pending() == (match config.name {
                    Some(n) => old(client).pending().push(Request::GetSinkInfoByName(n)),
                    None => old(client).pending().push(Request::GetDefaultDevice).push(
                        Request::GetSinkInfoByName(old(client).default_sink()),
                    ),
                })
                &&& final(client).listener_ids() == (if old(client).listener_ids().contains(id@) {
                    old(client).listener_ids()
                } else {
                    old(client).listener_ids().push(id@)
                })
                &&& final(client).default_sink() == old(client).default_sink()
                &&& forall|n: Seq<char>| final(client).cached(n) == old(client).cached(n)
            } else {
                &&& final(client).pending() == old(client).pending()
                &&& final(client).listener_ids() == old(client).listener_ids()
                &&& final(client).default_sink() == old(client).default_sink()
                &&& forall|n: Seq<char>| final(client).cached(n) == old(client).cached(n)
                &&& match mixer_reading(mixer_output@) {
                    Some((v, m)) => match r {
                        Ok(s) => match s.device {
                            SoundDevice::Alsa(d) => {
                                &&& d.name@ == (match config.name {
                                    Some(n) => n@,
                                    None => "Master"@,
                                })
                                &&& d.device@ == (match config.device {
                                    Some(c) => c@,
                                    None => "default"@,
                                })
                                &&& d.natural_mapping == config.natural_mapping
                                &&& d.volume_spec() == v
                                &&& d.muted_spec() == m
                            },
                            _ => false,
                        },
                        Err(_) => false,
                    },
                    None => r == Err::<Self, SoundError>(SoundError::Query),
                }
            },
    {
        if Self::uses_sound_server(config.driver) && server_usable {
            let mut device = match &config.name {
                None => PulseAudioSoundDevice::new(client),
                Some(n) => PulseAudioSoundDevice::with_name(client, n.clone()),
            };
            let _ = device.monitor(client, id.clone());
            Ok(Self::new(config, id, SoundDevice::PulseAudio(device)))
        } else {
            let (name, card) = Self::mixer_names(config);
            match AlsaSoundDevice::new(name, card, config.natural_mapping, mixer_output) {
                Ok(d) => Ok(Self::new(config, id, SoundDevice::Alsa(d))),
                Err(e) => Err(e),
            }
        }
    }

    /// Percent by which one scroll moves the volume.
    pub fn step_width(&self) -> (r: u32)
        requires
            self.wf(),
        ensures
            r == self.step_width_spec(),
            r <= STEP_WIDTH_MAX,
    {
        self.step_width
    }

    /// The identifier of the block.
    pub fn id(&self) -> (r: &String)
        ensures
            r == &self.id,
    {
        &self.id
    }

    /// How the block looks with the device's current state.
    pub fn appearance(&self) -> (r: Appearance)
        ensures
            r.icon == icon_for(self.device.volume_spec(), self.device.muted_spec()),
            r.text == text_for(self.device.muted_spec(), self.show_volume_when_muted, self.bar),
            r.warning == self.device.muted_spec(),
    {
        let volume = self.device.volume();
        let muted = self.device.muted();
        let icon = if muted {
            Icon::Muted
        } else if volume <= 20 {
            Icon::Empty
        } else if volume <= 70 {
            Icon::Half
        } else {
            Icon::Full
        };
        let text = if muted && !self.show_volume_when_muted {
            TextKind::Nothing
        } else if self.bar {
            TextKind::Bar
        } else {
            TextKind::Percent
        };
        Appearance { icon, text, warning: muted }
    }

    /// What a click on the element `target` with `button` asks of this block;
    /// `direction` is what the bar's scrolling setting makes of the button.
    /// A click on another element asks nothing.
    pub fn click_action(&self, target: Option<&String>, button: MouseButton, direction: Option<
        LogicalDirection,
    >) -> (r: ClickAction)
        requires
            self.wf(),
        ensures
            r == (match target {
                Some(t) if t@ == self.id@ => match button {
                    MouseButton::Right => ClickAction::ToggleMute,
                    MouseButton::Left => match self.on_click {
                        Some(c) => ClickAction::RunCommand(c),
                        None => ClickAction::Nothing,
                    },
                    _ => match direction {
                        Some(LogicalDirection::Up) => ClickAction::Step(
                            self.step_width_spec() as i32,
                        ),
                        Some(LogicalDirection::Down) => ClickAction::Step(
                            (-(self.step_width_spec() as int)) as i32,
                        ),
                        None => ClickAction::Nothing,
                    },
                },
                _ => ClickAction::Nothing,
            }),
    {
        match target {
            Some(t) => {
                if !(*t == self.id) {
                    return ClickAction::Nothing;
                }
            },
            None => {
                return ClickAction::Nothing;
            },
        }
        match button {
            MouseButton::Right => ClickAction::ToggleMute,
            MouseButton::Left => match &self.on_click {
                Some(c) => ClickAction::RunCommand(c.clone()),
                None => ClickAction::Nothing,
            },
            _ => match direction {
                Some(LogicalDirection::Up) => ClickAction::Step(self.step_width as i32),
                Some(LogicalDirection::Down) => ClickAction::Step(-(self.step_width as i32)),
                None => ClickAction::Nothing,
            },
        }
    }
}

} // verus!
