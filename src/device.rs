use vstd::prelude::*;

use crate::client::{PulseAudioClient, Request};
use crate::error::SoundError;
use crate::mixer_output::{mixer_reading, parse_mixer_output};
use crate::volume::{avg_levels, clamp, native_step, percent_of, stepped_levels, ChannelVolumes, VOLUME_MAX};

verus! {

/// The largest volume in percent the mixer backend sets.
pub const MIXER_VOLUME_MAX: u32 = 100;

/// The volume after a step on the command-line mixer: the sum clamped to
/// `[0, MIXER_VOLUME_MAX]`.
pub open spec fn mixer_step(volume: u32, step: i32) -> u32 {
    clamp(volume + step, 0, MIXER_VOLUME_MAX as int) as u32
}

/// A mixer step always lands in `[0, 100]`: the volume is the sum clamped to
/// that range, whatever the volume and the step.
pub proof fn lemma_mixer_step_clamps(volume: u32, step: i32)
    ensures
        mixer_step(volume, step) as int == clamp(volume + step, 0, 100),
        mixer_step(volume, step) <= 100,
{
}

/// The state after a toggle of the mixer device `a` is `b`: the mute flag is
/// flipped and everything else kept.
pub open spec fn alsa_toggled(a: AlsaSoundDevice, b: AlsaSoundDevice) -> bool {
    &&& b.muted_spec() == !a.muted_spec()
    &&& b.volume_spec() == a.volume_spec()
    &&& b.name == a.name
    &&& b.device == a.device
    &&& b.natural_mapping == a.natural_mapping
}

/// Toggling the mixer device twice gives back the mute flag and the volume it
/// started with.
pub proof fn lemma_alsa_toggle_twice(a: AlsaSoundDevice, b: AlsaSoundDevice, c: AlsaSoundDevice)
    requires
        alsa_toggled(a, b),
        alsa_toggled(b, c),
    ensures
        c.muted_spec() == a.muted_spec(),
        c.volume_spec() == a.volume_spec(),
        c.name == a.name,
        c.device == a.device,
{
}

/// The state after a toggle of the sink device `a` is `b`: the mute flag is
/// flipped and everything else kept.
pub open spec fn pulse_toggled(a: PulseAudioSoundDevice, b: PulseAudioSoundDevice) -> bool {
    &&& b.muted_spec() == !a.muted_spec()
    &&& b.levels() == a.levels()
    &&& b.percent() == a.percent()
    &&& b.name_spec() == a.name_spec()
}

/// Toggling a sink device twice gives back the mute flag and the volume it
/// started with.
pub proof fn lemma_pulse_toggle_twice(
    a: PulseAudioSoundDevice,
    b: PulseAudioSoundDevice,
    c: PulseAudioSoundDevice,
)
    requires
        pulse_toggled(a, b),
        pulse_toggled(b, c),
    ensures
        c.muted_spec() == a.muted_spec(),
        c.levels() == a.levels(),
        c.percent() == a.percent(),
        c.name_spec() == a.name_spec(),
{
}

/// A sink step leaves every channel in `[0, VOLUME_MAX]`: each is the moved
/// level clamped to that range.
pub proof fn lemma_sink_step_clamps(levels: Seq<u32>, step: i32)
    ensures
        stepped_levels(levels, native_step(step as int)).len() == levels.len(),
        forall|i: int|
            0 <= i < levels.len() ==> {
                let v = #[trigger] stepped_levels(levels, native_step(step as int))[i];
                &&& v <= VOLUME_MAX
                &&& v as int == clamp(levels[i] + native_step(step as int), 0, VOLUME_MAX as int)
            },
{
}

/// A mixer control driven through the command-line mixer. The library holds
/// its last-known state; the caller runs the mixer and hands over its output.
pub struct AlsaSoundDevice {
    /// The mixer control.
    pub name: String,
    /// The sound card.
    pub device: String,
    /// Whether volumes follow the mixer's perceptual mapping.
    pub natural_mapping: bool,
    /// The last-known volume in percent.
    pub volume: u32,
    /// The last-known mute flag.
    pub muted: bool,
}

impl AlsaSoundDevice {
    pub open spec fn volume_spec(&self) -> u32 {
        self.volume
    }

    pub open spec fn muted_spec(&self) -> bool {
        self.muted
    }

    /// A device whose state is read from `output`, the mixer's answer to a query.
    pub fn new(name: String, device: String, natural_mapping: bool, output: &[u8]) -> (r: Result<
        Self,
        SoundError,
    >)
        ensures
            match mixer_reading(output@) {
                Some((v, m)) => r.is_ok() && r.unwrap().volume_spec() == v && r.unwrap().muted_spec()
                    == m && r.unwrap().name == name && r.unwrap().device == device
                    && r.unwrap().natural_mapping == natural_mapping,
                None => r == Err::<Self, SoundError>(SoundError::Query),
            },
    {
        let mut sd = AlsaSoundDevice { name, device, natural_mapping, volume: 0, muted: false };
        match sd.get_info(output) {
            Ok(()) => Ok(sd),
            Err(e) => Err(e),
        }
    }

    pub fn volume(&self) -> (r: u32)
        ensures
            r == self.volume_spec(),
    {
        self.volume
    }

    pub fn muted(&self) -> (r: bool)
        ensures
            r == self.muted_spec(),
    {
        self.muted
    }

    /// Takes volume and mute flag from `output`, the mixer's answer to a
    /// query; on malformed output the state is kept and `Query` returned.
    pub fn get_info(&mut self, output: &[u8]) -> (r: Result<(), SoundError>)
        ensures
            final(self).name == old(self).name,
            final(self).device == old(self).device,
            final(self).natural_mapping == old(self).natural_mapping,
            match mixer_reading(output@) {
                Some((v, m)) => r is Ok && final(self).volume_spec() == v && final(self).muted_spec() == m,
                None => r == Err::<(), SoundError>(SoundError::Query) && final(self).volume_spec()
                    == old(self).volume_spec() && final(self).muted_spec() == old(self).muted_spec(),
            },
    {
        match parse_mixer_output(output) {
            Ok((v, m)) => {
                self.volume = v;
                self.muted = m;
                Ok(())
            },
            Err(e) => Err(e),
        }
    }

    /// The volume that a step of `step` percent leads to.
    pub fn stepped_volume(&self, step: i32) -> (r: u32)
        ensures
            r == mixer_step(self.volume_spec(), step),
    {
        let v: i64 = self.volume as i64 + step as i64;
        if v < 0 {
            0
        } else if v > MIXER_VOLUME_MAX as i64 {
            MIXER_VOLUME_MAX
        } else {
            v as u32
        }
    }

    /// Records a step of `step` percent, once the mixer has been told the new volume.
    pub fn set_volume(&mut self, step: i32)
        ensures
            final(self).volume_spec() == mixer_step(old(self).volume_spec(), step),
            final(self).muted_spec() == old(self).muted_spec(),
            final(self).name == old(self).name,
            final(self).device == old(self).device,
            final(self).natural_mapping == old(self).natural_mapping,
    {
        self.volume = self.stepped_volume(step);
    }

    /// Flips the mute flag, once the mixer has been told to toggle it.
    pub fn toggle(&mut self)
        ensures
            alsa_toggled(*old(self), *final(self)),
    {
        self.muted = !self.muted;
    }
}

/// A sink of the sound server, seen through the client's cache.
pub struct PulseAudioSoundDevice {
    name: Option<String>,
    volume: Option<ChannelVolumes>,
    volume_avg: u32,
    muted: bool,
}

impl PulseAudioSoundDevice {
    /// The configured sink name, if any.
    pub closed spec fn name_spec(&self) -> Option<String> {
        self.name
    }

    /// The last-known volume levels, once there are any.
    pub closed spec fn levels(&self) -> Option<Seq<u32>> {
        match self.volume {
            Some(v) => Some(v@),
            None => None,
        }
    }

    /// The last-known volume in percent.
    pub closed spec fn percent(&self) -> nat {
        self.volume_avg as nat
    }

    pub closed spec fn muted_spec(&self) -> bool {
        self.muted
    }

    /// Known levels are well formed and their percentage is the one shown.
    pub closed spec fn wf(&self) -> bool {
        match self.volume {
            Some(v) => v.wf() && self.volume_avg as nat == percent_of(avg_levels(v@)),
            None => true,
        }
    }

    /// The sink a device with configured name `name` stands for.
    pub open spec fn resolved(name: Option<String>, client: PulseAudioClient) -> String {
        match name {
            Some(n) => n,
            None => client.default_sink(),
        }
    }

    /// A device for the server's default sink; asks for the default sink and
    /// for the state of the sink currently known by that name.
    pub fn new(client: &mut PulseAudioClient) -> (r: Self)
        ensures
            r.wf(),
            r.name_spec().is_none(),
            r.levels().is_none(),
            r.percent() == 0,
            !r.muted_spec(),
            final(client).pending() == old(client).pending().push(Request::GetDefaultDevice).push(
                Request::GetSinkInfoByName(old(client).default_sink()),
            ),
            final(client).default_sink() == old(client).default_sink(),
            final(client).listener_ids() == old(client).listener_ids(),
            forall|n: Seq<char>| final(client).cached(n) == old(client).cached(n),
            old(client).wf() ==> final(client).wf(),
    {
        client.send(Request::GetDefaultDevice);
        let device = PulseAudioSoundDevice { name: None, volume: None, volume_avg: 0, muted: false };
        client.send(Request::GetSinkInfoByName(device.name(client)));
        device
    }

    /// A device for the sink called `name`; asks for its state.
    pub fn with_name(client: &mut PulseAudioClient, name: String) -> (r: Self)
        ensures
            r.wf(),
            r.name_spec() == Some(name),
            r.levels().is_none(),
            r.percent() == 0,
            !r.muted_spec(),
            final(client).pending() == old(client).pending().push(Request::GetSinkInfoByName(name)),
            final(client).default_sink() == old(client).default_sink(),
            final(client).listener_ids() == old(client).listener_ids(),
            forall|n: Seq<char>| final(client).cached(n) == old(client).cached(n),
            old(client).wf() ==> final(client).wf(),
    {
        client.send(Request::GetSinkInfoByName(name.clone()));
        PulseAudioSoundDevice { name: Some(name), volume: None, volume_avg: 0, muted: false }
    }

    /// The configured sink name, else the server's default sink.
    pub fn name(&self, client: &PulseAudioClient) -> (r: String)
        ensures
            r == Self::resolved(self.name_spec(), *client),
    {
        match &self.name {
            Some(n) => n.clone(),
            None => client.default_sink_name(),
        }
    }

    /// Takes `volume` as the known levels and recomputes the percentage.
    pub fn volume(&mut self, volume: ChannelVolumes)
        requires
            volume.wf(),
        ensures
            final(self).wf(),
            final(self).levels() == Some(volume@),
            final(self).percent() == percent_of(avg_levels(volume@)),
            final(self).muted_spec() == old(self).muted_spec(),
            final(self).name_spec() == old(self).name_spec(),
    {
        self.volume_avg = volume.percent();
        self.volume = Some(volume);
    }

    /// The last-known volume in percent.
    pub fn volume_avg(&self) -> (r: u32)
        ensures
            r as nat == self.percent(),
    {
        self.volume_avg
    }

    pub fn muted(&self) -> (r: bool)
        ensures
            r == self.muted_spec(),
    {
        self.muted
    }

    /// Takes the cached state of the device's sink; without a cache entry the
    /// known state is kept.
    pub fn get_info(&mut self, client: &PulseAudioClient) -> (r: Result<(), SoundError>)
        requires
            old(self).wf(),
            client.wf(),
        ensures
            r is Ok,
            final(self).wf(),
            final(self).name_spec() == old(self).name_spec(),
            match client.cached(Self::resolved(old(self).name_spec(), *client)@) {
                Some((lv, m)) => final(self).levels() == Some(lv) && final(self).muted_spec() == m
                    && final(self).percent() == percent_of(avg_levels(lv)),
                None => final(self).levels() == old(self).levels() && final(self).muted_spec()
                    == old(self).muted_spec() && final(self).percent() == old(self).percent(),
            },
    {
        let name = self.name(client);
        match client.lookup(&name) {
            None => {},
            Some((v, m)) => {
                self.volume(v);
                self.muted = m;
            },
        }
        Ok(())
    }

    /// Moves every channel by `step` percent, clamped to the valid range, and
    /// asks the server to apply the new levels. Fails with `State`, changing
    /// nothing, while no levels are known.
    pub fn set_volume(&mut self, client: &mut PulseAudioClient, step: i32) -> (r: Result<(), SoundError>)
        requires
            old(self).wf(),
        ensures
            final(self).wf(),
            final(self).name_spec() == old(self).name_spec(),
            final(self).muted_spec() == old(self).muted_spec(),
            final(client).default_sink() == old(client).default_sink(),
            final(client).listener_ids() == old(client).listener_ids(),
            forall|n: Seq<char>| final(client).cached(n) == old(client).cached(n),
            old(client).wf() ==> final(client).wf(),
            match old(self).levels() {
                None => r == Err::<(), SoundError>(SoundError::State) && final(self).levels().is_none()
                    && final(self).percent() == old(self).percent() && final(client).pending() == old(
                    client,
                ).pending(),
                Some(lv) => {
                    let nv = stepped_levels(lv, native_step(step as int));
                    &&& r is Ok
                    &&& final(self).levels() == Some(nv)
                    &&& final(self).percent() == percent_of(avg_levels(nv))
                    &&& final(client).pending().len() == old(client).pending().len() + 1
                    &&& final(client).pending().drop_last() == old(client).pending()
                    &&& match final(client).pending().last() {
                        Request::SetSinkVolumeByName(n, v) => n == Self::resolved(
                            old(self).name_spec(),
                            *old(client),
                        ) && v@ == nv,
                        _ => false,
                    }
                },
            },
    {
        let mut volume = match &self.volume {
            Some(v) => v.duplicate(),
            None => {
                return Err(SoundError::State);
            },
        };
        volume.apply_step(step);
        let sent = volume.duplicate();
        self.volume(volume);
        let name = self.name(client);
        client.send(Request::SetSinkVolumeByName(name, sent));
        assert(client.pending().drop_last() =~= old(client).pending());
        Ok(())
    }

    /// Flips the mute flag and asks the server to apply it.
    pub fn toggle(&mut self, client: &mut PulseAudioClient) -> (r: Result<(), SoundError>)
        ensures
            r is Ok,
            pulse_toggled(*old(self), *final(self)),
            old(self).wf() ==> final(self).wf(),
            final(client).pending() == old(client).pending().push(
                Request::SetSinkMuteByName(Self::resolved(old(self).name_spec(), *old(client)), !old(self).muted_spec()),
            ),
            final(client).default_sink() == old(client).default_sink(),
            final(client).listener_ids() == old(client).listener_ids(),
            forall|n: Seq<char>| final(client).cached(n) == old(client).cached(n),
            old(client).wf() ==> final(client).wf(),
    {
        self.muted = !self.muted;
        let name = self.name(client);
        client.send(Request::SetSinkMuteByName(name, self.muted));
        Ok(())
    }

    /// Registers the block `id` for update notifications.
    pub fn monitor(&mut self, client: &mut PulseAudioClient, id: String) -> (r: Result<(), SoundError>)
        requires
            old(client).wf(),
        ensures
            r is Ok,
            *final(self) == *old(self),
            final(client).wf(),
            final(client).listener_ids() == (if old(client).listener_ids().contains(id@) {
                old(client).listener_ids()
            } else {
                old(client).listener_ids().push(id@)
            }),
            final(client).default_sink() == old(client).default_sink(),
            final(client).pending() == old(client).pending(),
            forall|n: Seq<char>| final(client).cached(n) == old(client).cached(n),
    {
        client.register_listener(id);
        Ok(())
    }
}

/// The backend a sound block uses, fixed when the block is made.
pub enum SoundDevice {
    Alsa(AlsaSoundDevice),
    PulseAudio(PulseAudioSoundDevice),
}

impl SoundDevice {
    pub open spec fn volume_spec(&self) -> nat {
        match self {
            SoundDevice::Alsa(d) => d.volume_spec() as nat,
            SoundDevice::PulseAudio(d) => d.percent(),
        }
    }

    pub open spec fn muted_spec(&self) -> bool {
        match self {
            SoundDevice::Alsa(d) => d.muted_spec(),
            SoundDevice::PulseAudio(d) => d.muted_spec(),
        }
    }

    /// The last-known volume in percent.
    pub fn volume(&self) -> (r: u32)
        ensures
            r as nat == self.volume_spec(),
    {
        match self {
            SoundDevice::Alsa(d) => d.volume(),
            SoundDevice::PulseAudio(d) => d.volume_avg(),
        }
    }

    /// The last-known mute flag.
    pub fn muted(&self) -> (r: bool)
        ensures
            r == self.muted_spec(),
    {
        match self {
            SoundDevice::Alsa(d) => d.muted(),
            SoundDevice::PulseAudio(d) => d.muted(),
        }
    }
}

} // verus!
