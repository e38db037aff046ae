use dmm::decoder::{
    decode_step, ignore_end_of_stream_error, read_step, select_track, OpenError, PacketError,
    ReadError, SelectedTrack, Step, TrackParams,
};
use dmm::timing::TimeBase;

fn params(id: u32, decodable: bool) -> TrackParams {
    TrackParams {
        id,
        decodable,
        time_base: Some(TimeBase { numer: 1, denom: 44100 }),
        n_frames: Some(441000),
    }
}

#[test]
fn selects_first_decodable_track() {
    let tracks = vec![params(3, false), params(7, true), params(9, true)];
    let t = select_track(&tracks).unwrap();
    assert_eq!(t.id, 7);
    assert_eq!(t.n_frames, 441000);
    assert_eq!(t.duration(), 10);
}

#[test]
fn no_decodable_track_is_an_error() {
    assert_eq!(select_track(&vec![params(1, false)]), Err(OpenError::NoSupportedTrack));
    assert_eq!(select_track(&vec![]), Err(OpenError::NoSupportedTrack));
}

#[test]
fn missing_parameters_are_errors() {
    let mut t = params(1, true);
    t.time_base = None;
    assert_eq!(select_track(&vec![t]), Err(OpenError::MissingTimeBase));
    t.time_base = Some(TimeBase { numer: 0, denom: 1 });
    assert_eq!(select_track(&vec![t]), Err(OpenError::MissingTimeBase));
    let mut t = params(1, true);
    t.n_frames = None;
    assert_eq!(select_track(&vec![t]), Err(OpenError::MissingFrameCount));
}

#[test]
fn duration_is_time_base_times_frames() {
    let t = SelectedTrack { id: 0, time_base: TimeBase { numer: 1, denom: 8000 }, n_frames: 40000 };
    assert_eq!(t.duration(), 5);
    let t = SelectedTrack { id: 0, time_base: TimeBase { numer: 3, denom: 2 }, n_frames: 5 };
    assert_eq!(t.duration(), 7);
}

#[test]
fn time_base_seconds_wrap() {
    let tb = TimeBase::new(4_000_000_000, 1).unwrap();
    assert_eq!(tb.calc_seconds(u64::MAX), u64::MAX.wrapping_mul(4_000_000_000));
    assert_eq!(TimeBase::new(0, 5), None);
    assert_eq!(TimeBase::new(1, 1000).unwrap().calc_seconds(2999), 2);
}

#[test]
fn end_of_stream_error_is_ignored() {
    let eos = ReadError::Io { unexpected_eof: true, message: "end of stream".to_string() };
    assert_eq!(ignore_end_of_stream_error(Err(eos)), Ok(()));
    let other = ReadError::Io { unexpected_eof: true, message: "truncated".to_string() };
    assert_eq!(ignore_end_of_stream_error(Err(other.clone())), Err(other));
    let kind = ReadError::Io { unexpected_eof: false, message: "end of stream".to_string() };
    assert_eq!(ignore_end_of_stream_error(Err(kind.clone())), Err(kind));
    assert_eq!(ignore_end_of_stream_error(Ok(())), Ok(()));
}

#[test]
fn read_outcomes_classified() {
    assert_eq!(read_step(Ok(2), 2), Step::Decoded);
    assert_eq!(read_step(Ok(1), 2), Step::Retry);
    assert_eq!(read_step(Err(ReadError::ResetRequired), 2), Step::StreamEnd);
    let eos = ReadError::Io { unexpected_eof: true, message: "end of stream".to_string() };
    assert_eq!(read_step(Err(eos), 2), Step::StreamEnd);
    let io = ReadError::Io { unexpected_eof: false, message: "broken pipe".to_string() };
    assert_eq!(read_step(Err(io), 2), Step::Fatal);
    assert_eq!(read_step(Err(ReadError::Other), 2), Step::Fatal);
}

#[test]
fn decode_outcomes_classified() {
    assert_eq!(decode_step(Ok(())), Step::Decoded);
    assert_eq!(decode_step(Err(PacketError::Io)), Step::Retry);
    assert_eq!(decode_step(Err(PacketError::Data)), Step::Retry);
    assert_eq!(decode_step(Err(PacketError::Other)), Step::Fatal);
}
