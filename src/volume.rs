use vstd::prelude::*;

verus! {

/// The sound server's native volume that stands for 100%.
pub const VOLUME_NORM: u32 = 0x10000;

/// The largest native volume a channel may hold.
pub const VOLUME_MAX: u32 = 0x7fff_ffff;

/// The largest number of channels a volume vector holds.
pub const CHANNELS_MAX: usize = 32;

/// Per-channel volume levels of one sink, in the sound server's native units.
#[derive(Debug, Clone, PartialEq, Eq)]
pub struct ChannelVolumes {
    pub channels: Vec<u32>,
}

/// Sum of the levels.
pub open spec fn sum_levels(s: Seq<u32>) -> nat
    decreases s.len(),
{
    if s.len() == 0 {
        0
    } else {
        sum_levels(s.drop_last()) + s.last() as nat
    }
}

/// Mean of the levels, rounded down; zero for no channel.
pub open spec fn avg_levels(s: Seq<u32>) -> nat {
    if s.len() == 0 {
        0
    } else {
        sum_levels(s) / s.len()
    }
}

/// A native volume as a percentage of `VOLUME_NORM`, rounded to nearest.
pub open spec fn percent_of(native: nat) -> nat {
    ((native * 100 + (VOLUME_NORM / 2) as nat) / (VOLUME_NORM as nat)) as nat
}

/// A step in percent as native units, rounded to nearest.
pub open spec fn native_step(step: int) -> int {
    if step >= 0 {
        (step * (VOLUME_NORM as int) + 50) / 100
    } else {
        -((-step * (VOLUME_NORM as int) + 50) / 100)
    }
}

/// `v` clamped to `[lo, hi]`.
pub open spec fn clamp(v: int, lo: int, hi: int) -> int {
    if v < lo {
        lo
    } else if v > hi {
        hi
    } else {
        v
    }
}

/// Every channel moved by `delta` and clamped to `[0, VOLUME_MAX]`.
pub open spec fn stepped_levels(s: Seq<u32>, delta: int) -> Seq<u32> {
    s.map_values(|v: u32| clamp(v + delta, 0, VOLUME_MAX as int) as u32)
}

proof fn lemma_sum_bound(s: Seq<u32>)
    requires
        forall|i: int| 0 <= i < s.len() ==> s[i] <= VOLUME_MAX,
    ensures
        sum_levels(s) <= s.len() * (VOLUME_MAX as nat),
    decreases s.len(),
{
    if s.len() > 0 {
        lemma_sum_bound(s.drop_last());
    }
}

impl ChannelVolumes {
    pub open spec fn view(&self) -> Seq<u32> {
        self.channels@
    }

    /// At most `CHANNELS_MAX` channels, none above `VOLUME_MAX`.
    pub open spec fn wf(&self) -> bool {
        &&& self.channels@.len() <= CHANNELS_MAX
        &&& forall|i: int| 0 <= i < self.channels@.len() ==> self.channels@[i] <= VOLUME_MAX
    }

    /// Whether the vector is well formed.
    pub fn is_wf(&self) -> (r: bool)
        ensures
            r == self.wf(),
    {
        if self.channels.len() > CHANNELS_MAX {
            return false;
        }
        let mut i: usize = 0;
        while i < self.channels.len()
            invariant
                i <= self.channels@.len(),
                forall|k: int| 0 <= k < i ==> self.channels@[k] <= VOLUME_MAX,
            decreases self.channels.len() - i,
        {
            if self.channels[i] > VOLUME_MAX {
                return false;
            }
            i = i + 1;
        }
        true
    }

    /// A copy of the levels.
    pub fn duplicate(&self) -> (r: ChannelVolumes)
        ensures
            r@ == self@,
    {
        ChannelVolumes { channels: self.channels.clone() }
    }

    /// Mean of the channel levels, rounded down.
    pub fn avg(&self) -> (r: u32)
        requires
            self.wf(),
        ensures
            r as nat == avg_levels(self@),
    {
        let n = self.channels.len();
        let mut sum: u64 = 0;
        let mut i: usize = 0;
        while i < n
            invariant
                self.wf(),
                n == self@.len(),
                i <= n,
                sum as nat == sum_levels(self@.take(i as int)),
            decreases n - i,
        {
            proof {
                lemma_sum_bound(self@.take(i as int));
                assert(self@.take(i as int + 1).drop_last() =~= self@.take(i as int));
            }
            sum = sum + self.channels[i] as u64;
            i = i + 1;
        }
        proof {
            assert(self@.take(n as int) =~= self@);
            lemma_sum_bound(self@);
        }
        if n == 0 {
            0
        } else {
            proof {
                vstd::arithmetic::div_mod::lemma_div_is_ordered(
                    sum_levels(self@) as int, n * (VOLUME_MAX as int), n as int);
                vstd::arithmetic::div_mod::lemma_div_multiples_vanish(VOLUME_MAX as int, n as int);
            }
            (sum / (n as u64)) as u32
        }
    }

    /// The mean level as a percentage of `VOLUME_NORM`, rounded to nearest.
    pub fn percent(&self) -> (r: u32)
        requires
            self.wf(),
        ensures
            r as nat == percent_of(avg_levels(self@)),
    {
        let a = self.avg() as u64;
        ((a * 100 + (VOLUME_NORM / 2) as u64) / VOLUME_NORM as u64) as u32
    }

    /// Every channel moved by `step` percent (as native units) and clamped to
    /// `[0, VOLUME_MAX]`.
    pub fn apply_step(&mut self, step: i32)
        requires
            old(self).wf(),
        ensures
            final(self).wf(),
            final(self)@ == stepped_levels(old(self)@, native_step(step as int)),
    {
        proof {
            let m = step as int;
            assert(-0x8000_0000 * 0x10000 <= m * 0x10000 <= 0x7fff_ffff * 0x10000) by (nonlinear_arith)
                requires -0x8000_0000 <= m <= 0x7fff_ffff;
        }
        let delta: i64 = if step >= 0 {
            (step as i64 * VOLUME_NORM as i64 + 50) / 100
        } else {
            -((-(step as i64) * VOLUME_NORM as i64 + 50) / 100)
        };
        assert(delta == native_step(step as int));
        let ghost start = self@;
        let n = self.channels.len();
        let mut i: usize = 0;
        while i < n
            invariant
                n == self@.len(),
                n == start.len(),
                n <= CHANNELS_MAX,
                i <= n,
                delta == native_step(step as int),
                forall|k: int| 0 <= k < i ==> self@[k] == stepped_levels(start, delta as int)[k],
                forall|k: int| i <= k < n ==> self@[k] == start[k],
                forall|k: int| 0 <= k < n ==> start[k] <= VOLUME_MAX,
            decreases n - i,
        {
            let v: i64 = self.channels[i] as i64 + delta;
            let c: u32 = if v < 0 {
                0
            } else if v > VOLUME_MAX as i64 {
                VOLUME_MAX
            } else {
                v as u32
            };
            self.channels.set(i, c);
            i = i + 1;
        }
        assert(self@ =~= stepped_levels(start, delta as int));
    }
}

} // verus!
