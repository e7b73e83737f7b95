//! Pull-based audio supplier chain.
//!
//! A supplier answers a request for a number of frames starting at a source
//! position and reports how many source frames it consumed and whether the
//! material ended within the request. Suppliers compose by decoration: the
//! amplifier scales samples, the resampler and the time stretcher adjust
//! tempo. Samples are plain integers standing for PCM amplitudes; the host's
//! rate-conversion DSP stays outside, so the resampler and time stretcher
//! here cover the tempo-neutral paths and the exact frame bookkeeping.

use vstd::prelude::*;

verus! {

/// Outcome of one supply call.
#[derive(Clone, Copy, PartialEq, Eq, Structural, Debug)]
pub enum SupplyResponseStatus {
    /// The supplier can deliver more material after this request.
    PleaseContinue,
    /// The material ended within this request, after the given number of
    /// frames had been written.
    ReachedEnd { num_frames_written: usize },
}

impl SupplyResponseStatus {
    pub fn reached_end(self) -> (r: bool)
        ensures
            r == (self is ReachedEnd),
    {
        match self {
            SupplyResponseStatus::ReachedEnd { .. } => true,
            SupplyResponseStatus::PleaseContinue => false,
        }
    }
}

/// Answer of a supplier to one supply request.
#[derive(Clone, Copy, PartialEq, Eq, Structural, Debug)]
pub struct SupplyResponse {
    /// How many source frames the supplier consumed to satisfy the request.
    pub num_frames_consumed: usize,
    pub status: SupplyResponseStatus,
}

impl SupplyResponse {
    /// Builds the response for a supplier whose material holds
    /// `total_frame_count` frames: the end is reached exactly when the
    /// request covers the last frame.
    pub fn limited_by_total_frame_count(
        num_frames_consumed: usize,
        num_frames_written: usize,
        start_frame: usize,
        total_frame_count: usize,
    ) -> (r: SupplyResponse)
        requires
            start_frame + num_frames_consumed <= total_frame_count,
        ensures
            r.num_frames_consumed == num_frames_consumed,
            (start_frame + num_frames_consumed == total_frame_count) ==> r.status == (
            SupplyResponseStatus::ReachedEnd { num_frames_written }),
            (start_frame + num_frames_consumed < total_frame_count) ==> r.status
                == SupplyResponseStatus::PleaseContinue,
    {
        SupplyResponse {
            num_frames_consumed,
            status: if start_frame + num_frames_consumed == total_frame_count {
                SupplyResponseStatus::ReachedEnd { num_frames_written }
            } else {
                SupplyResponseStatus::PleaseContinue
            },
        }
    }
}

/// How many frames a request starting at `start_frame` for `requested`
/// frames can take from material of `len` frames.
pub open spec fn frames_available(len: int, start_frame: int, requested: int) -> int {
    if start_frame + requested <= len {
        requested
    } else if start_frame <= len {
        len - start_frame
    } else {
        0
    }
}

/// A sample scaled by the rational factor `num / den`: the magnitude is
/// scaled and truncated, the sign kept, and the result saturated to the
/// 32-bit sample range.
pub open spec fn amplified_sample(s: int, num: int, den: int) -> int {
    let scaled = if s >= 0 {
        (s * num) / den
    } else {
        -(((-s) * num) / den)
    };
    if scaled > i32::MAX as int {
        i32::MAX as int
    } else if scaled < i32::MIN as int {
        i32::MIN as int
    } else {
        scaled
    }
}

/// What one supply call on a chain over `material` with volume factor
/// `vol_num / vol_den` returns: the covered range of the material, scaled by
/// the volume factor, stands in the prefix of the destination buffer; the
/// rest of the buffer is untouched; the consumed count and status follow
/// [`frames_available`], and the end is reported exactly when the request
/// reaches the last frame.
pub open spec fn chain_supply_ok(
    material: Seq<i32>,
    vol_num: int,
    vol_den: int,
    start_frame: int,
    old_dest: Seq<i32>,
    dest: Seq<i32>,
    r: SupplyResponse,
) -> bool {
    let n = frames_available(material.len() as int, start_frame, old_dest.len() as int);
    &&& r.num_frames_consumed == n
    &&& dest.len() == old_dest.len()
    &&& forall|i: int|
        0 <= i < n ==> dest[i] == amplified_sample(material[start_frame + i] as int, vol_num, vol_den)
    &&& forall|i: int| n <= i < dest.len() ==> dest[i] == old_dest[i]
    &&& if start_frame + n >= material.len() {
        r.status == (SupplyResponseStatus::ReachedEnd { num_frames_written: n as usize })
    } else {
        r.status == SupplyResponseStatus::PleaseContinue
    }
}

/// Material with a fixed number of frames, the inner end of a supplier chain.
#[derive(Clone, Debug)]
pub struct ClipSource {
    frames: Vec<i32>,
}

impl View for ClipSource {
    type V = Seq<i32>;

    closed spec fn view(&self) -> Seq<i32> {
        self.frames@
    }
}

impl ClipSource {
    pub fn new(frames: Vec<i32>) -> (r: ClipSource)
        ensures
            r@ == frames@,
    {
        ClipSource { frames }
    }

    /// Total number of frames in the material.
    pub fn frame_count(&self) -> (r: usize)
        ensures
            r == self@.len(),
    {
        self.frames.len()
    }

    /// Copies material into the destination buffer, starting at
    /// `start_frame`. The destination length is the requested frame count.
    pub fn supply_audio(&self, start_frame: usize, dest: &mut Vec<i32>) -> (r: SupplyResponse)
        ensures
            chain_supply_ok(self@, 1, 1, start_frame as int, old(dest)@, final(dest)@, r),
    {
        let total = self.frames.len();
        let avail = if start_frame <= total {
            total - start_frame
        } else {
            0
        };
        let n = if dest.len() <= avail {
            dest.len()
        } else {
            avail
        };
        let mut i: usize = 0;
        while i < n
            invariant
                i <= n,
                n <= dest.len(),
                n <= avail,
                start_frame + n <= total || avail == 0,
                avail == 0 ==> n == 0,
                total == self@.len(),
                dest@.len() == old(dest)@.len(),
                forall|j: int| 0 <= j < i ==> dest@[j] == self@[start_frame + j],
                forall|j: int| i <= j < dest@.len() ==> dest@[j] == old(dest)@[j],
            decreases n - i,
        {
            let v = self.frames[start_frame + i];
            dest.set(i, v);
            i += 1;
        }
        proof {
            assert(forall|j: int|
                0 <= j < n ==> dest@[j] == amplified_sample(self@[start_frame + j] as int, 1, 1))
                by {
                assert forall|j: int| 0 <= j < n implies dest@[j] == amplified_sample(
                    self@[start_frame + j] as int,
                    1,
                    1,
                ) by {
                    let s = self@[start_frame + j] as int;
                    assert(s >= 0 ==> (s * 1) / 1 == s) by (nonlinear_arith);
                    assert(s < 0 ==> -(((-s) * 1) / 1) == s) by (nonlinear_arith);
                }
            }
        }
        SupplyResponse::limited_by_total_frame_count(
            n,
            n,
            if start_frame <= total {
                start_frame
            } else {
                total
            },
            total,
        )
    }
}

/// Scales samples by a rational volume factor; frame counts pass through
/// unchanged.
#[derive(Debug)]
pub struct Amplifier {
    volume_num: u32,
    volume_den: u32,
    supplier: ClipSource,
}

impl Amplifier {
    #[verifier::type_invariant]
    pub closed spec fn inv(self) -> bool {
        &&& 0 < self.volume_den <= 0x10000
        &&& self.volume_num <= 0x10000
    }

    pub closed spec fn spec_volume(self) -> (int, int) {
        (self.volume_num as int, self.volume_den as int)
    }

    pub closed spec fn spec_supplier(self) -> ClipSource {
        self.supplier
    }

    /// Wraps a source with a neutral volume factor of 1.
    pub fn new(supplier: ClipSource) -> (r: Amplifier)
        ensures
            r.spec_supplier() == supplier,
            r.spec_volume() == (1int, 1int),
    {
        Amplifier { volume_num: 1, volume_den: 1, supplier }
    }

    /// Sets the volume factor `num / den`. Both parts are capped at 65536,
    /// which covers full attenuation and a wide gain range in fine steps.
    pub fn set_volume(&mut self, num: u32, den: u32)
        requires
            0 < den <= 0x10000,
            num <= 0x10000,
        ensures
            final (self).spec_volume() == (num as int, den as int),
            final (self).spec_supplier() == old(self).spec_supplier(),
        no_unwind
    {
        proof {
            use_type_invariant(&*self);
        }
        self.volume_num = num;
        self.volume_den = den;
    }

    pub fn supplier(&self) -> (r: &ClipSource)
        ensures
            *r == self.spec_supplier(),
    {
        &self.supplier
    }

    /// Supplies audio like the inner source and then scales every written
    /// frame by the volume factor.
    pub fn supply_audio(&self, start_frame: usize, dest: &mut Vec<i32>) -> (r: SupplyResponse)
        ensures
            chain_supply_ok(
                self.spec_supplier()@,
                self.spec_volume().0,
                self.spec_volume().1,
                start_frame as int,
                old(dest)@,
                final(dest)@,
                r,
            ),
    {
        proof {
            use_type_invariant(&*self);
        }
        let response = self.supplier.supply_audio(start_frame, dest);
        let ghost mid = dest@;
        let n = response.num_frames_consumed;
        assert(n <= dest@.len());
        let mut i: usize = 0;
        while i < n
            invariant
                i <= n,
                n <= dest@.len(),
                dest@.len() == mid.len(),
                0 < self.volume_den <= 0x10000,
                self.volume_num <= 0x10000,
                self.spec_volume() == (self.volume_num as int, self.volume_den as int),
                forall|j: int|
                    0 <= j < i ==> dest@[j] == amplified_sample(
                        mid[j] as int,
                        self.volume_num as int,
                        self.volume_den as int,
                    ),
                forall|j: int| i <= j < dest@.len() ==> dest@[j] == mid[j],
            decreases n - i,
        {
            let s = dest[i];
            let scaled = amplify_one(s, self.volume_num, self.volume_den);
            dest.set(i, scaled);
            i += 1;
        }
        proof {
            let vn = self.spec_volume().0;
            let vd = self.spec_volume().1;
            assert(forall|j: int|
                0 <= j < n ==> mid[j] == self.spec_supplier()@[start_frame + j]);
            assert(forall|j: int|
                0 <= j < n ==> dest@[j] == amplified_sample(
                    self.spec_supplier()@[start_frame + j] as int,
                    vn,
                    vd,
                )) by {
                assert forall|j: int| 0 <= j < n implies dest@[j] == amplified_sample(
                    self.spec_supplier()@[start_frame + j] as int,
                    vn,
                    vd,
                ) by {
                    let m = self.spec_supplier()@[start_frame + j] as int;
                    assert(mid[j] == amplified_sample(m, 1, 1));
                    assert(amplified_sample(m, 1, 1) == m) by {
                        assert(m >= 0 ==> (m * 1) / 1 == m) by (nonlinear_arith);
                        assert(m < 0 ==> -(((-m) * 1) / 1) == m) by (nonlinear_arith);
                    }
                }
            }
        }
        response
    }
}

/// Scales one sample by `num / den`, saturating to the sample range.
fn amplify_one(s: i32, num: u32, den: u32) -> (r: i32)
    requires
        0 < den <= 0x10000,
        num <= 0x10000,
    ensures
        r as int == amplified_sample(s as int, num as int, den as int),
{
    if s >= 0 {
        assert((s as u64) * (num as u64) <= 0x8000_0000u64 * 0x10000u64) by (nonlinear_arith)
            requires
                0 <= s <= 0x7fff_ffff,
                num <= 0x10000,
        ;
        let wide: u64 = (s as u64) * (num as u64) / (den as u64);
        assert(wide == (s as int * num as int) / (den as int));
        if wide > i32::MAX as u64 {
            i32::MAX
        } else {
            wide as i32
        }
    } else {
        let mag: u64 = (-(s as i64)) as u64;
        assert(mag * (num as u64) <= 0x8000_0000u64 * 0x10000u64) by (nonlinear_arith)
            requires
                mag <= 0x8000_0000u64,
                num <= 0x10000,
        ;
        let wide: u64 = mag * (num as u64) / (den as u64);
        assert(wide == ((-(s as int)) * num as int) / (den as int));
        if wide > 0x8000_0000u64 {
            i32::MIN
        } else if wide == 0x8000_0000u64 {
            i32::MIN
        } else {
            let neg: i64 = -(wide as i64);
            neg as i32
        }
    }
}

/// Wraps a supplier and adjusts tempo by changing the frame rate. The host
/// does the rate-conversion DSP, so this stage drives the tempo-neutral
/// path, where it hands requests through unchanged; the proportional frame
/// bookkeeping for a non-neutral factor stands in
/// [`Self::converted_frame_count`].
#[derive(Debug)]
pub struct Resampler {
    enabled: bool,
    tempo_num: u32,
    tempo_den: u32,
    supplier: Amplifier,
}

impl Resampler {
    #[verifier::type_invariant]
    pub closed spec fn inv(self) -> bool {
        &&& 0 < self.tempo_num <= 0x10000
        &&& 0 < self.tempo_den <= 0x10000
    }

    pub closed spec fn spec_enabled(self) -> bool {
        self.enabled
    }

    pub closed spec fn spec_tempo(self) -> (int, int) {
        (self.tempo_num as int, self.tempo_den as int)
    }

    pub closed spec fn spec_supplier(self) -> Amplifier {
        self.supplier
    }

    /// Whether requests pass through with unchanged frame counts.
    pub open spec fn is_neutral(self) -> bool {
        !self.spec_enabled() || self.spec_tempo().0 == self.spec_tempo().1
    }

    pub fn new(supplier: Amplifier) -> (r: Resampler)
        ensures
            r.spec_supplier() == supplier,
            r.is_neutral(),
            !r.spec_enabled(),
    {
        Resampler { enabled: false, tempo_num: 1, tempo_den: 1, supplier }
    }

    pub fn set_enabled(&mut self, enabled: bool)
        ensures
            final (self).spec_enabled() == enabled,
            final (self).spec_tempo() == old(self).spec_tempo(),
            final (self).spec_supplier() == old(self).spec_supplier(),
    {
        proof {
            use_type_invariant(&*self);
        }
        self.enabled = enabled;
    }

    /// Sets the tempo factor `num / den`; a factor above 1 plays faster.
    pub fn set_tempo_factor(&mut self, num: u32, den: u32)
        requires
            0 < num <= 0x10000,
            0 < den <= 0x10000,
        ensures
            final (self).spec_tempo() == (num as int, den as int),
            final (self).spec_enabled() == old(self).spec_enabled(),
            final (self).spec_supplier() == old(self).spec_supplier(),
    {
        proof {
            use_type_invariant(&*self);
        }
        self.tempo_num = num;
        self.tempo_den = den;
    }

    pub fn supplier(&self) -> (r: &Amplifier)
        ensures
            *r == self.spec_supplier(),
    {
        &self.supplier
    }

    /// Sets the volume factor of the amplifier stage.
    pub fn set_volume(&mut self, num: u32, den: u32)
        requires
            0 < den <= 0x10000,
            num <= 0x10000,
        ensures
            final (self).spec_supplier().spec_volume() == (num as int, den as int),
            final (self).spec_supplier().spec_supplier() == old(self).spec_supplier().spec_supplier(),
            final (self).spec_enabled() == old(self).spec_enabled(),
            final (self).spec_tempo() == old(self).spec_tempo(),
    {
        proof {
            use_type_invariant(&*self);
        }
        self.supplier.set_volume(num, den);
    }

    /// How many source frames a request for `dest_frame_count` output frames
    /// covers under the tempo factor: `round(dest * num / den)`. This is the
    /// proportional adjustment applied to MIDI material, whose frame rate is
    /// artificial and carries no DSP.
    pub fn converted_frame_count(&self, dest_frame_count: u32) -> (r: u64)
        ensures
            r == (dest_frame_count * self.spec_tempo().0 + self.spec_tempo().1 / 2)
                / self.spec_tempo().1,
    {
        proof {
            use_type_invariant(&*self);
        }
        assert((dest_frame_count as u64) * (self.tempo_num as u64) <= 0xffff_ffffu64
            * 0x10000u64) by (nonlinear_arith)
            requires
                self.tempo_num <= 0x10000,
        ;
        let wide: u64 = (dest_frame_count as u64) * (self.tempo_num as u64) + (self.tempo_den
            as u64) / 2;
        wide / (self.tempo_den as u64)
    }

    /// Supplies audio through the tempo-neutral path: the request is handed
    /// to the inner supplier unchanged.
    pub fn supply_audio(&self, start_frame: usize, dest: &mut Vec<i32>) -> (r: SupplyResponse)
        requires
            self.is_neutral(),
        ensures
            chain_supply_ok(
                self.spec_supplier().spec_supplier()@,
                self.spec_supplier().spec_volume().0,
                self.spec_supplier().spec_volume().1,
                start_frame as int,
                old(dest)@,
                final(dest)@,
                r,
            ),
    {
        self.supplier.supply_audio(start_frame, dest)
    }
}

/// Wraps a supplier and changes tempo while preserving pitch. The
/// stretching DSP belongs to the host; when disabled or inactive the stage
/// hands requests through unchanged, which is the only path this engine
/// drives itself.
#[derive(Debug)]
pub struct TimeStretcher {
    enabled: bool,
    active: bool,
    supplier: Resampler,
}

impl TimeStretcher {
    pub closed spec fn spec_enabled(self) -> bool {
        self.enabled
    }

    pub closed spec fn spec_active(self) -> bool {
        self.active
    }

    pub closed spec fn spec_supplier(self) -> Resampler {
        self.supplier
    }

    /// Whether requests pass through with unchanged frame counts.
    pub open spec fn is_neutral(self) -> bool {
        !self.spec_enabled() || !self.spec_active()
    }

    pub fn new(supplier: Resampler) -> (r: TimeStretcher)
        ensures
            r.spec_supplier() == supplier,
            r.is_neutral(),
    {
        TimeStretcher { enabled: false, active: false, supplier }
    }

    pub fn set_enabled(&mut self, enabled: bool)
        ensures
            final (self).spec_enabled() == enabled,
            final (self).spec_active() == old(self).spec_active(),
            final (self).spec_supplier() == old(self).spec_supplier(),
    {
        self.enabled = enabled;
    }

    pub fn set_active(&mut self, active: bool)
        ensures
            final (self).spec_active() == active,
            final (self).spec_enabled() == old(self).spec_enabled(),
            final (self).spec_supplier() == old(self).spec_supplier(),
    {
        self.active = active;
    }

    pub fn supplier(&self) -> (r: &Resampler)
        ensures
            *r == self.spec_supplier(),
    {
        &self.supplier
    }

    /// Sets the volume factor of the amplifier stage.
    pub fn set_volume(&mut self, num: u32, den: u32)
        requires
            0 < den <= 0x10000,
            num <= 0x10000,
        ensures
            final (self).spec_supplier().spec_supplier().spec_volume() == (num as int, den as int),
            final (self).spec_supplier().spec_supplier().spec_supplier() == old(
                self,
            ).spec_supplier().spec_supplier().spec_supplier(),
            final (self).spec_supplier().spec_enabled() == old(self).spec_supplier().spec_enabled(),
            final (self).spec_supplier().spec_tempo() == old(self).spec_supplier().spec_tempo(),
            final (self).spec_enabled() == old(self).spec_enabled(),
            final (self).spec_active() == old(self).spec_active(),
    {
        self.supplier.set_volume(num, den);
    }

    /// Supplies audio through the pass-through path.
    pub fn supply_audio(&self, start_frame: usize, dest: &mut Vec<i32>) -> (r: SupplyResponse)
        requires
            self.is_neutral(),
            self.spec_supplier().is_neutral(),
        ensures
            chain_supply_ok(
                self.spec_supplier().spec_supplier().spec_supplier()@,
                self.spec_supplier().spec_supplier().spec_volume().0,
                self.spec_supplier().spec_supplier().spec_volume().1,
                start_frame as int,
                old(dest)@,
                final(dest)@,
                r,
            ),
    {
        self.supplier.supply_audio(start_frame, dest)
    }
}

/// The supplier chain of one clip: source, amplifier, resampler, time
/// stretcher, pulled from the outermost stage.
#[derive(Debug)]
pub struct SupplierChain {
    head: TimeStretcher,
}

impl SupplierChain {
    pub closed spec fn spec_head(self) -> TimeStretcher {
        self.head
    }

    /// The material at the inner end of the chain.
    pub open spec fn spec_material(self) -> Seq<i32> {
        self.spec_head().spec_supplier().spec_supplier().spec_supplier()@
    }

    /// The volume factor of the amplifier stage.
    pub open spec fn spec_volume(self) -> (int, int) {
        self.spec_head().spec_supplier().spec_supplier().spec_volume()
    }

    /// Whether every stage passes frame counts through unchanged: the
    /// 1-to-1 playback configuration.
    pub open spec fn is_neutral(self) -> bool {
        self.spec_head().is_neutral() && self.spec_head().spec_supplier().is_neutral()
    }

    /// Builds a neutral chain around the given material.
    pub fn new(frames: Vec<i32>) -> (r: SupplierChain)
        ensures
            r.spec_material() == frames@,
            r.is_neutral(),
            r.spec_volume() == (1int, 1int),
    {
        let source = ClipSource::new(frames);
        let amplifier = Amplifier::new(source);
        let resampler = Resampler::new(amplifier);
        let stretcher = TimeStretcher::new(resampler);
        SupplierChain { head: stretcher }
    }

    pub fn frame_count(&self) -> (r: usize)
        ensures
            r == self.spec_material().len(),
    {
        self.head.supplier().supplier().supplier().frame_count()
    }

    /// Sets the volume factor of the amplifier stage.
    pub fn set_volume(&mut self, num: u32, den: u32)
        requires
            0 < den <= 0x10000,
            num <= 0x10000,
        ensures
            final (self).spec_volume() == (num as int, den as int),
            final (self).spec_material() == old(self).spec_material(),
            final (self).is_neutral() == old(self).is_neutral(),
    {
        self.head.set_volume(num, den);
    }

    /// Pulls one block through the whole chain.
    pub fn supply_audio(&self, start_frame: usize, dest: &mut Vec<i32>) -> (r: SupplyResponse)
        requires
            self.is_neutral(),
        ensures
            chain_supply_ok(
                self.spec_material(),
                self.spec_volume().0,
                self.spec_volume().1,
                start_frame as int,
                old(dest)@,
                final(dest)@,
                r,
            ),
    {
        self.head.supply_audio(start_frame, dest)
    }

    /// Drives the chain from the start of the material to its end in blocks
    /// of `block_size` frames and accumulates how many frames were written.
    ///
    /// For a neutral chain over material of N frames, the accumulated
    /// written count is exactly N: repeated supply calls hand out every
    /// frame once and the end is reported in the call that delivers the
    /// last frame.
    pub fn play_through(&self, block_size: usize) -> (total_written: usize)
        requires
            self.is_neutral(),
            block_size > 0,
        ensures
            total_written == self.spec_material().len(),
    {
        let mut buffer: Vec<i32> = Vec::new();
        let mut k: usize = 0;
        while k < block_size
            invariant
                k <= block_size,
                buffer@.len() == k,
            decreases block_size - k,
        {
            buffer.push(0);
            k += 1;
        }
        let mut total_written: usize = 0;
        let mut pos: usize = 0;
        let total_frames = self.frame_count();
        let ghost n = self.spec_material().len() as int;
        loop
            invariant
                self.is_neutral(),
                buffer@.len() == block_size,
                block_size > 0,
                pos == total_written,
                pos <= n,
                n == self.spec_material().len(),
                n == total_frames,
            ensures
                total_written == n,
            decreases n - pos,
        {
            let response = self.supply_audio(pos, &mut buffer);
            assert(response.num_frames_consumed <= n - pos);
            total_written += response.num_frames_consumed;
            pos += response.num_frames_consumed;
            if response.status.reached_end() {
                break ;
            }
        }
        total_written
    }
}

/// A request to the background worker that pre-computes stretched
/// material.
#[derive(Clone, Copy, PartialEq, Eq, Structural, Debug)]
pub enum StretchWorkerRequest {
    Stretch,
}

} // verus!
