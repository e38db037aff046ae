//! The stream decoder's decisions: which track of a container is played,
//! how long it lasts, and what each read or decode outcome means for the
//! decode loop. The container reader and the codec themselves are driven by
//! the caller, which reports their outcomes here.

use vstd::prelude::*;
use crate::timing::TimeBase;

verus! {

/// What the container reader reports of one of its tracks.
#[derive(Debug, Clone, Copy, PartialEq, Eq, Structural)]
pub struct TrackParams {
    pub id: u32,
    /// The track's codec is a known one (not the null codec).
    pub decodable: bool,
    pub time_base: Option<TimeBase>,
    pub n_frames: Option<u64>,
}

/// The track chosen for one decode session, with its codec parameters.
#[derive(Debug, Clone, Copy, PartialEq, Eq, Structural)]
pub struct SelectedTrack {
    pub id: u32,
    pub time_base: TimeBase,
    pub n_frames: u64,
}

/// Why no track of a container can be played.
#[derive(Debug, Clone, Copy, PartialEq, Eq, Structural)]
pub enum OpenError {
    /// No track has a decodable codec.
    NoSupportedTrack,
    /// The chosen track has no usable time base.
    MissingTimeBase,
    /// The chosen track does not give its frame count.
    MissingFrameCount,
}

/// `i` is the first track with a decodable codec.
pub open spec fn is_first_decodable(tracks: Seq<TrackParams>, i: int) -> bool {
    &&& 0 <= i < tracks.len()
    &&& tracks[i].decodable
    &&& forall|j: int| 0 <= j < i ==> !(#[trigger] tracks[j]).decodable
}

/// The session that a chosen track gives, or why it cannot give one.
pub open spec fn session_of(t: TrackParams) -> Result<SelectedTrack, OpenError> {
    match t.time_base {
        None => Err(OpenError::MissingTimeBase),
        Some(tb) => if !tb.wf() {
            Err(OpenError::MissingTimeBase)
        } else {
            match t.n_frames {
                None => Err(OpenError::MissingFrameCount),
                Some(n) => Ok(SelectedTrack { id: t.id, time_base: tb, n_frames: n }),
            }
        },
    }
}

impl SelectedTrack {
    pub open spec fn wf(self) -> bool {
        self.time_base.wf()
    }

    /// Whole seconds of the track: its frame count in its time base.
    pub open spec fn spec_duration(self) -> int {
        self.time_base.seconds(self.n_frames)
    }

    /// The track's total duration in whole seconds (wrapping past `u64`).
    pub fn duration(&self) -> (r: u64)
        requires
            self.wf(),
        ensures
            r as int == self.spec_duration() % crate::timing::u64_span(),
            self.spec_duration() < crate::timing::u64_span() ==> r as int == self.spec_duration(),
    {
        self.time_base.calc_seconds(self.n_frames)
    }
}

/// Chooses the first track with a decodable codec and reads its session
/// parameters.
pub fn select_track(tracks: &Vec<TrackParams>) -> (r: Result<SelectedTrack, OpenError>)
    ensures
        r == Err::<SelectedTrack, OpenError>(OpenError::NoSupportedTrack) <==> forall|i: int|
            0 <= i < tracks@.len() ==> !(#[trigger] tracks@[i]).decodable,
        r != Err::<SelectedTrack, OpenError>(OpenError::NoSupportedTrack) ==> exists|i: int|
            is_first_decodable(tracks@, i) && r == session_of(#[trigger] tracks@[i]),
        r matches Ok(s) ==> s.wf(),
{
    let mut i: usize = 0;
    while i < tracks.len()
        invariant
            i <= tracks@.len(),
            forall|j: int| 0 <= j < i ==> !(#[trigger] tracks@[j]).decodable,
        decreases tracks@.len() - i,
    {
        let t = tracks[i];
        if t.decodable {
            assert(is_first_decodable(tracks@, i as int));
            return match t.time_base {
                None => Err(OpenError::MissingTimeBase),
                Some(tb) => if !(tb.numer > 0 && tb.denom > 0) {
                    Err(OpenError::MissingTimeBase)
                } else {
                    match t.n_frames {
                        None => Err(OpenError::MissingFrameCount),
                        Some(n) => Ok(SelectedTrack { id: t.id, time_base: tb, n_frames: n }),
                    }
                },
            };
        }
        i = i + 1;
    }
    Err(OpenError::NoSupportedTrack)
}

/// Why the container reader gave no packet.
#[derive(Debug, Clone, PartialEq, Eq)]
pub enum ReadError {
    /// The track list changed mid-stream.
    ResetRequired,
    /// An I/O error: whether its kind is "unexpected end of file", and its message.
    Io { unexpected_eof: bool, message: String },
    /// Any other error.
    Other,
}

/// Why a packet failed to decode.
#[derive(Debug, Clone, Copy, PartialEq, Eq, Structural)]
pub enum PacketError {
    /// An I/O error while decoding the packet.
    Io,
    /// The packet's data is invalid.
    Data,
    /// Any other error.
    Other,
}

/// The message with which a container reader reports the end of its media.
pub open spec fn end_of_stream_message() -> Seq<char> {
    seq!['e', 'n', 'd', ' ', 'o', 'f', ' ', 's', 't', 'r', 'e', 'a', 'm']
}

/// The error is the reader's way of saying that the media is complete.
pub open spec fn is_end_of_stream(e: ReadError) -> bool {
    match e {
        ReadError::Io { unexpected_eof, message } => unexpected_eof && message@
            == end_of_stream_message(),
        _ => false,
    }
}

/// A read outcome with the "end of stream" error counted as success.
pub open spec fn spec_ignore_end_of_stream_error(result: Result<(), ReadError>) -> Result<(), ReadError> {
    match result {
        Err(e) => if is_end_of_stream(e) {
            Ok(())
        } else {
            Err(e)
        },
        Ok(u) => Ok(u),
    }
}

/// Turns the reader's "end of stream" error into success; any other outcome
/// is handed back as it came.
pub fn ignore_end_of_stream_error(result: Result<(), ReadError>) -> (r: Result<(), ReadError>)
    ensures
        r == spec_ignore_end_of_stream_error(result),
{
    match result {
        Err(ReadError::Io { unexpected_eof, message }) => {
            let expected = String::from_str("end of stream");
            proof {
                reveal_strlit("end of stream");
                assert(expected@ =~= end_of_stream_message());
            }
            if unexpected_eof && message == expected {
                Ok(())
            } else {
                Err(ReadError::Io { unexpected_eof, message })
            }
        },
        other => other,
    }
}

/// What the decode loop does after one step of the decoder.
#[derive(Debug, Clone, Copy, PartialEq, Eq, Structural)]
pub enum Step {
    /// The track is complete.
    StreamEnd,
    /// Nothing to play came of this step: take the next packet.
    Retry,
    /// The packet belongs to the selected track: decode it / play its samples.
    Decoded,
    /// An unrecoverable error: playback of the track ends.
    Fatal,
}

/// The step that a read outcome gives: the track id of the packet read, or
/// the reader's error.
pub open spec fn spec_read_step(packet: Result<u32, ReadError>, selected: u32) -> Step {
    match packet {
        Ok(id) => if id == selected {
            Step::Decoded
        } else {
            Step::Retry
        },
        Err(ReadError::ResetRequired) => Step::StreamEnd,
        Err(e) => if is_end_of_stream(e) {
            Step::StreamEnd
        } else {
            Step::Fatal
        },
    }
}

/// Classifies the outcome of reading the next packet for the track `selected`.
pub fn read_step(packet: Result<u32, ReadError>, selected: u32) -> (r: Step)
    ensures
        r == spec_read_step(packet, selected),
{
    match packet {
        Ok(id) => if id == selected {
            Step::Decoded
        } else {
            Step::Retry
        },
        Err(ReadError::ResetRequired) => Step::StreamEnd,
        Err(e) => match ignore_end_of_stream_error(Err(e)) {
            Ok(()) => Step::StreamEnd,
            Err(_) => Step::Fatal,
        },
    }
}

/// The step that a decode outcome gives.
pub open spec fn spec_decode_step(outcome: Result<(), PacketError>) -> Step {
    match outcome {
        Ok(()) => Step::Decoded,
        Err(PacketError::Io) => Step::Retry,
        Err(PacketError::Data) => Step::Retry,
        Err(PacketError::Other) => Step::Fatal,
    }
}

/// Classifies the outcome of decoding one packet: per-packet I/O and data
/// errors skip the packet, any other error is fatal to the track.
pub fn decode_step(outcome: Result<(), PacketError>) -> (r: Step)
    ensures
        r == spec_decode_step(outcome),
{
    match outcome {
        Ok(()) => Step::Decoded,
        Err(PacketError::Io) => Step::Retry,
        Err(PacketError::Data) => Step::Retry,
        Err(PacketError::Other) => Step::Fatal,
    }
}

} // verus!
