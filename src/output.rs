//! The sample bridge and the hardware output's underrun policy: the ring
//! buffer between the decode thread (producer) and the hardware callback
//! (consumer), how large it is, when the scratch buffer grows, how the
//! decoded samples are handed over and how the callback fills its frame.

use vstd::prelude::*;
use rb::{RbConsumer, RbProducer, RB};

verus! {

/// rb's ring buffer, opaque.
#[verifier::external_type_specification]
#[verifier::external_body]
#[verifier::reject_recursive_types(T)]
pub struct ExSpscRb<T>(rb::SpscRb<T>);

/// The ring's writing end, opaque.
#[verifier::external_type_specification]
#[verifier::external_body]
#[verifier::reject_recursive_types(T)]
pub struct ExProducer<T>(rb::Producer<T>);

/// The ring's reading end, opaque.
#[verifier::external_type_specification]
#[verifier::external_body]
#[verifier::reject_recursive_types(T)]
pub struct ExConsumer<T>(rb::Consumer<T>);

/// rb's error, opaque.
#[verifier::external_type_specification]
#[verifier::external_body]
pub struct ExRbError(rb::RbError);

/// Relies on rb's `SpscRb::new`: a single-producer/single-consumer ring
/// buffer that holds up to `size` values.
#[verifier::external_body]
fn spsc_new<T: Copy + Default>(size: usize) -> (r: rb::SpscRb<T>)
    requires
        size < usize::MAX,
{
    rb::SpscRb::new(size)
}

/// Relies on rb's `RB::producer`: the writing end of the ring.
#[verifier::external_body]
fn spsc_producer<T: Copy + Default>(ring: &rb::SpscRb<T>) -> (r: rb::Producer<T>) {
    ring.producer()
}

/// Relies on rb's `RB::consumer`: the reading end of the ring.
#[verifier::external_body]
fn spsc_consumer<T: Copy + Default>(ring: &rb::SpscRb<T>) -> (r: rb::Consumer<T>) {
    ring.consumer()
}

/// Relies on rb's `RbInspector::capacity` on `SpscRb`: the size the ring
/// was made with.
#[verifier::external_body]
fn spsc_capacity<T: Copy + Default>(ring: &rb::SpscRb<T>) -> (r: usize) {
    rb::RbInspector::capacity(ring)
}

/// The writing end of a ring buffer, with the record of every sample stored
/// through it, in order, and the ring's capacity.
#[verifier::reject_recursive_types(T)]
pub struct RingWriter<T> {
    producer: rb::Producer<T>,
    capacity: usize,
    stored: Ghost<Seq<T>>,
}

/// The reading end of a ring buffer, with the record of every sample taken
/// through it, in order, and the ring's capacity.
#[verifier::reject_recursive_types(T)]
pub struct RingReader<T> {
    consumer: rb::Consumer<T>,
    capacity: usize,
    taken: Ghost<Seq<T>>,
}

impl<T: Copy> RingWriter<T> {
    /// Every sample stored in the ring through this end so far, in order.
    pub closed spec fn stored(&self) -> Seq<T> {
        self.stored@
    }

    /// The ring's capacity, in samples.
    pub closed spec fn spec_capacity(&self) -> usize {
        self.capacity
    }

    /// The ring's capacity, in samples.
    pub fn capacity(&self) -> (r: usize)
        ensures
            r == self.spec_capacity(),
    {
        self.capacity
    }

    /// Relies on rb's `Producer::write_blocking`: `None` for an empty slice;
    /// otherwise it waits while the ring is full, stores the first `n` values
    /// of `data` after those stored before and returns `Some(n)`, `n` at most
    /// the slice's length (a spurious wake-up may store none).
    #[verifier::external_body]
    fn write_blocking(&mut self, data: &[T]) -> (r: Option<usize>)
        ensures
            r is None <==> data@.len() == 0,
            r is None ==> final(self).stored() == old(self).stored(),
            r matches Some(n) ==> n <= data@.len() && final(self).stored() == old(self).stored()
                + data@.subrange(0, n as int),
            final(self).spec_capacity() == old(self).spec_capacity(),
    {
        rb::RbProducer::write_blocking(&self.producer, data)
    }
}

impl<T: Copy> RingReader<T> {
    /// Every sample taken from the ring through this end so far, in order.
    pub closed spec fn taken(&self) -> Seq<T> {
        self.taken@
    }

    /// The ring's capacity, in samples.
    pub closed spec fn spec_capacity(&self) -> usize {
        self.capacity
    }

    /// The ring's capacity, in samples.
    pub fn capacity(&self) -> (r: usize)
        ensures
            r == self.spec_capacity(),
    {
        self.capacity
    }

    /// Relies on rb's `Consumer::read`, which does not wait for the producer
    /// (it only takes the ring's lock): `Ok(0)` for an empty slice; `Err`
    /// with `data` untouched and nothing taken when the ring is empty;
    /// otherwise `Ok(n)`, `n` at most the slice's length, with the `n` oldest
    /// samples of the ring taken into the first `n` places of `data` and the
    /// rest of `data` untouched.
    #[verifier::external_body]
    fn read(&mut self, data: &mut [T]) -> (r: Result<usize, rb::RbError>)
        ensures
            final(data)@.len() == old(data)@.len(),
            r is Err ==> final(data)@ == old(data)@ && final(self).taken() == old(self).taken(),
            r matches Ok(n) ==> n <= old(data)@.len() && final(data)@.subrange(
                n as int,
                old(data)@.len() as int,
            ) == old(data)@.subrange(n as int, old(data)@.len() as int) && final(self).taken()
                == old(self).taken() + final(data)@.subrange(0, n as int),
            final(self).spec_capacity() == old(self).spec_capacity(),
    {
        rb::RbConsumer::read(&self.consumer, data)
    }
}

/// Samples the ring buffer holds: 200 ms of audio at `sample_rate` over
/// `channels` interleaved channels.
pub open spec fn spec_ring_capacity(sample_rate: u32, channels: usize) -> int {
    (200 * sample_rate as int / 1000) * channels as int
}

/// The ring buffer's capacity for a stream: `(200 ms × rate / 1000) × channels`.
pub fn ring_capacity(sample_rate: u32, channels: usize) -> (r: usize)
    requires
        spec_ring_capacity(sample_rate, channels) <= usize::MAX,
    ensures
        r == spec_ring_capacity(sample_rate, channels),
{
    if channels == 0 {
        proof {
            let f = 200 * sample_rate as int / 1000;
            assert(f * 0 == 0) by (nonlinear_arith);
        }
        return 0;
    }
    let frames: u64 = (200 * sample_rate as u64) / 1000;
    proof {
        let f = frames as int;
        let c = channels as int;
        assert(f <= f * c) by (nonlinear_arith)
            requires
                f >= 0,
                c >= 1,
        ;
    }
    let f = frames as usize;
    f * channels
}

/// The ring buffer for a stream of `sample_rate` and `channels`: its two
/// ends, with nothing stored or taken yet, and the capacity of 200 ms of
/// audio. `None` when that capacity is zero (a blocking write would never
/// return) or does not fit in memory, or when rb does not report the ring
/// at that capacity.
pub fn open_ring<T: Copy + Default>(sample_rate: u32, channels: usize) -> (r: Option<
    (RingWriter<T>, RingReader<T>),
>)
    ensures
        r is Some ==> 0 < spec_ring_capacity(sample_rate, channels) < usize::MAX,
        r matches Some((w, rd)) ==> {
            &&& w.spec_capacity() == spec_ring_capacity(sample_rate, channels)
            &&& rd.spec_capacity() == spec_ring_capacity(sample_rate, channels)
            &&& w.stored() == Seq::<T>::empty()
            &&& rd.taken() == Seq::<T>::empty()
        },
{
    let frames: u64 = (200 * sample_rate as u64) / 1000;
    if frames > usize::MAX as u64 && channels > 0 {
        proof {
            let f = frames as int;
            let c = channels as int;
            assert(f <= f * c) by (nonlinear_arith)
                requires
                    f >= 0,
                    c >= 1,
            ;
        }
        return None;
    }
    if channels > 0 {
        match (frames as usize).checked_mul(channels) {
            Some(c) => if c == usize::MAX || c == 0 {
                return None;
            },
            None => return None,
        }
    } else {
        proof {
            let f = 200 * sample_rate as int / 1000;
            assert(f * 0 == 0) by (nonlinear_arith);
        }
        return None;
    }
    let capacity = ring_capacity(sample_rate, channels);
    let ring = spsc_new::<T>(capacity);
    if spsc_capacity(&ring) != capacity {
        return None;
    }
    let producer = spsc_producer(&ring);
    let consumer = spsc_consumer(&ring);
    Some((
        RingWriter { producer, capacity, stored: Ghost(Seq::empty()) },
        RingReader { consumer, capacity, taken: Ghost(Seq::empty()) },
    ))
}

/// The scratch buffer must be replaced before converting a decoded buffer:
/// its capacity is below the decoded buffer's capacity (in frames) times its
/// channel count.
pub fn scratch_needs_growth(scratch_capacity: usize, decoded_capacity: usize, channels: usize) -> (r:
    bool)
    ensures
        r == (scratch_capacity < decoded_capacity as int * channels as int),
{
    match decoded_capacity.checked_mul(channels) {
        Some(needed) => scratch_capacity < needed,
        None => true,
    }
}

/// What writing one decoded buffer takes.
#[derive(Debug, Clone, Copy, PartialEq, Eq, Structural)]
pub enum WritePlan {
    /// The buffer has no frames: nothing to do.
    Skip,
    /// Convert into the scratch buffer as it is, then hand over.
    Convert,
    /// Replace the scratch buffer by one of the needed capacity first.
    GrowAndConvert,
}

/// The plan for a decoded buffer of `frames` frames, `decoded_capacity`
/// frames of capacity and `channels` channels, given the scratch buffer's
/// capacity in samples.
pub fn plan_write(frames: usize, scratch_capacity: usize, decoded_capacity: usize, channels: usize) -> (r:
    WritePlan)
    ensures
        r == (if frames == 0 {
            WritePlan::Skip
        } else if scratch_capacity < decoded_capacity as int * channels as int {
            WritePlan::GrowAndConvert
        } else {
            WritePlan::Convert
        }),
{
    if frames == 0 {
        WritePlan::Skip
    } else if scratch_needs_growth(scratch_capacity, decoded_capacity, channels) {
        WritePlan::GrowAndConvert
    } else {
        WritePlan::Convert
    }
}

/// Hands the samples of `samples` from `offset` on to the ring, waiting while
/// it is full. Returns the offset after the samples stored, which are
/// recorded after those stored before, or `None`, storing nothing, once the
/// offset is at the end.
pub fn write_from<T: Copy>(writer: &mut RingWriter<T>, samples: &[T], offset: usize) -> (r: Option<
    usize,
>)
    requires
        offset <= samples@.len(),
    ensures
        r is None <==> offset == samples@.len(),
        r is None ==> final(writer).stored() == old(writer).stored(),
        r matches Some(next) ==> offset <= next <= samples@.len() && final(writer).stored()
            == old(writer).stored() + samples@.subrange(offset as int, next as int),
        final(writer).spec_capacity() == old(writer).spec_capacity(),
{
    let rest = &samples[offset..samples.len()];
    match writer.write_blocking(rest) {
        None => None,
        Some(n) => {
            assert(rest@.subrange(0, n as int) =~= samples@.subrange(
                offset as int,
                offset + n,
            ));
            Some(offset + n)
        },
    }
}

/// Offsets that start at 0, never go back, and end at the slice's end: the
/// offsets that `write_from` returns, called from 0 until it gives `None`.
pub open spec fn is_write_run(len: int, offsets: Seq<int>) -> bool {
    &&& offsets.len() >= 1
    &&& offsets[0] == 0
    &&& offsets.last() == len
    &&& forall|k: int| 0 <= k < offsets.len() - 1 ==> offsets[k] <= #[trigger] offsets[k + 1]
    &&& forall|k: int| 0 <= k < offsets.len() ==> 0 <= #[trigger] offsets[k] <= len
}

/// A run of `write_from` calls from offset 0 until `None` stores the whole
/// slice, in order, each sample once: when each call adds to the writer's
/// record the samples between its offsets (as `write_from` ensures), the
/// record at the end is the record at the start followed by the samples.
pub proof fn lemma_write_run_stores_all<T>(
    samples: Seq<T>,
    offsets: Seq<int>,
    records: Seq<Seq<T>>,
)
    requires
        is_write_run(samples.len() as int, offsets),
        records.len() == offsets.len(),
        forall|k: int|
            0 <= k < offsets.len() - 1 ==> #[trigger] records[k + 1] == records[k]
                + samples.subrange(offsets[k], offsets[k + 1]),
    ensures
        records.last() == records[0] + samples,
{
    lemma_records_prefix(samples, offsets, records, offsets.len() - 1);
    assert(samples.subrange(0, samples.len() as int) =~= samples);
}

/// After the `k`-th write of a run, the record holds the slice's prefix up
/// to the `k`-th offset after what it held at the start.
proof fn lemma_records_prefix<T>(samples: Seq<T>, offsets: Seq<int>, records: Seq<Seq<T>>, k: int)
    requires
        is_write_run(samples.len() as int, offsets),
        records.len() == offsets.len(),
        forall|j: int|
            0 <= j < offsets.len() - 1 ==> #[trigger] records[j + 1] == records[j]
                + samples.subrange(offsets[j], offsets[j + 1]),
        0 <= k < offsets.len(),
    ensures
        records[k] == records[0] + samples.subrange(0, offsets[k]),
    decreases k,
{
    if k == 0 {
        assert(records[0] + samples.subrange(0, 0) =~= records[0]);
    } else {
        let m = k - 1;
        lemma_records_prefix(samples, offsets, records, m);
        assert(records[m + 1] == records[m] + samples.subrange(offsets[m], offsets[m + 1]));
        assert(offsets[m] <= offsets[m + 1]);
        assert(0 <= offsets[m] <= samples.len());
        assert(0 <= offsets[k] <= samples.len());
        assert(samples.subrange(0, offsets[m]) + samples.subrange(offsets[m], offsets[k])
            =~= samples.subrange(0, offsets[k]));
        assert(records[k] =~= records[0] + samples.subrange(0, offsets[k]));
    }
}

/// What the callback does with the ring's answer: the count read (none
/// on an error) is how many samples came from the ring; they stay as the
/// read left them and every later position gets `silence`.
pub fn fill_after_read<T: Copy>(
    read: Result<usize, rb::RbError>,
    data: &mut [T],
    silence: T,
) -> (written: usize)
    requires
        read matches Ok(n) ==> n <= old(data)@.len(),
    ensures
        written == (match read {
            Ok(n) => n,
            Err(_) => 0,
        }),
        final(data)@.len() == old(data)@.len(),
        final(data)@.subrange(0, written as int) == old(data)@.subrange(0, written as int),
        forall|i: int| written <= i < final(data)@.len() ==> final(data)@[i] == silence,
{
    let written: usize = match read {
        Ok(n) => n,
        Err(_) => 0,
    };
    let len = data.len();
    let mut i: usize = written;
    while i < len
        invariant
            written <= i <= len,
            len == data@.len(),
            data@.subrange(0, written as int) == old(data)@.subrange(0, written as int),
            forall|j: int| written <= j < i ==> data@[j] == silence,
        decreases len - i,
    {
        data[i] = silence;
        i = i + 1;
        assert(data@.subrange(0, written as int) =~= old(data)@.subrange(0, written as int));
    }
    written
}

/// The hardware callback: fills `data` with the oldest samples the ring
/// holds, as many as fit, and every position after them with `silence`,
/// without waiting for the producer. Returns how many samples came from the
/// ring; they are exactly the samples newly recorded as taken.
pub fn fill_output<T: Copy>(reader: &mut RingReader<T>, data: &mut [T], silence: T) -> (written:
    usize)
    ensures
        final(data)@.len() == old(data)@.len(),
        written <= old(data)@.len(),
        final(reader).taken() == old(reader).taken() + final(data)@.subrange(0, written as int),
        forall|i: int| written <= i < final(data)@.len() ==> final(data)@[i] == silence,
        final(reader).spec_capacity() == old(reader).spec_capacity(),
{
    let read = reader.read(data);
    proof {
        if read is Err {
            assert(data@.subrange(0, 0) =~= Seq::<T>::empty());
            assert(reader.taken() =~= old(reader).taken() + data@.subrange(0, 0));
        }
    }
    fill_after_read(read, data, silence)
}

/// A sample type that the hardware output can be opened with.
pub trait AudioOutputSample: Copy + Sized {
    /// The neutral value.
    spec fn spec_silence() -> Self;

    /// The neutral value, written where no audio is available: the middle
    /// of the type's range (symphonia's `Sample::MID`).
    fn silence() -> (r: Self)
        ensures
            r == Self::spec_silence(),
    ;
}

impl AudioOutputSample for i16 {
    open spec fn spec_silence() -> i16 {
        0
    }

    fn silence() -> (r: i16) {
        0
    }
}

impl AudioOutputSample for u16 {
    open spec fn spec_silence() -> u16 {
        0x8000
    }

    fn silence() -> (r: u16) {
        0x8000
    }
}

/// The hardware-native sample representations that the engine outputs.
#[derive(Debug, Clone, Copy, PartialEq, Eq, Structural)]
pub enum SampleFormat {
    I16,
    U16,
    F32,
}

/// The sample representations that an output device may negotiate.
#[derive(Debug, Clone, Copy, PartialEq, Eq, Structural)]
pub enum DeviceFormat {
    I8,
    I16,
    I32,
    I64,
    U8,
    U16,
    U32,
    U64,
    F32,
    F64,
}

/// Why the output could not be opened.
#[derive(Debug, Clone, Copy, PartialEq, Eq, Structural)]
pub enum OutputError {
    /// The device's sample format is not one the engine outputs.
    UnsupportedFormat,
    /// The stream could not be built.
    OpenFailed,
    /// The stream could not be started.
    StartFailed,
}

/// The engine's sample format for a device format, if it has one.
pub open spec fn spec_select_format(d: DeviceFormat) -> Result<SampleFormat, OutputError> {
    match d {
        DeviceFormat::I16 => Ok(SampleFormat::I16),
        DeviceFormat::U16 => Ok(SampleFormat::U16),
        DeviceFormat::F32 => Ok(SampleFormat::F32),
        _ => Err(OutputError::UnsupportedFormat),
    }
}

/// Chooses the sample format of a playback session from the device's
/// negotiated format; any format but 16-bit integers and 32-bit floats is
/// refused.
pub fn select_format(d: DeviceFormat) -> (r: Result<SampleFormat, OutputError>)
    ensures
        r == spec_select_format(d),
{
    match d {
        DeviceFormat::I16 => Ok(SampleFormat::I16),
        DeviceFormat::U16 => Ok(SampleFormat::U16),
        DeviceFormat::F32 => Ok(SampleFormat::F32),
        _ => Err(OutputError::UnsupportedFormat),
    }
}

} // verus!
