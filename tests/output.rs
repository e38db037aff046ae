use dmm::output::{
    fill_after_read, fill_output, open_ring, plan_write, ring_capacity, scratch_needs_growth,
    select_format, write_from, AudioOutputSample, DeviceFormat, OutputError, RingReader,
    RingWriter, SampleFormat, WritePlan,
};

/// Writes all of `samples`, as the sample bridge does.
fn write_all<T: Copy>(writer: &mut RingWriter<T>, samples: &[T]) -> Vec<usize> {
    let mut offset = 0;
    let mut offsets = vec![0];
    while let Some(next) = write_from(writer, samples, offset) {
        offset = next;
        offsets.push(next);
    }
    offsets
}

/// A ring of `capacity` samples (a rate of 5 Hz per sample, one channel).
fn ring<T: Copy + Default>(capacity: u32) -> (RingWriter<T>, RingReader<T>) {
    open_ring::<T>(capacity * 5, 1).unwrap()
}

#[test]
fn ring_holds_200_ms() {
    assert_eq!(ring_capacity(44100, 2), 17640);
    assert_eq!(ring_capacity(48000, 1), 9600);
    assert_eq!(ring_capacity(8000, 0), 0);
    assert_eq!(ring_capacity(1, 6), 0);
}

#[test]
fn open_ring_reports_capacity() {
    let (mut writer, mut reader) = open_ring::<i16>(8000, 2).unwrap();
    assert_eq!(writer.capacity(), 3200);
    assert_eq!(reader.capacity(), 3200);
    let samples: Vec<i16> = (0..3200).collect();
    assert_eq!(write_from(&mut writer, &samples, 0), Some(3200));
    let mut out = vec![0i16; 3204];
    let n = fill_output(&mut reader, &mut out, i16::silence());
    assert_eq!(n, 3200);
    assert_eq!(&out[..3200], &samples[..]);
    assert!(open_ring::<i16>(u32::MAX, usize::MAX).is_none());
    assert!(open_ring::<i16>(8000, 0).is_none());
    assert!(open_ring::<i16>(4, 2).is_none());
}

#[test]
fn scratch_grows_by_capacity_times_channels() {
    assert!(scratch_needs_growth(0, 1152, 2));
    assert!(scratch_needs_growth(2303, 1152, 2));
    assert!(!scratch_needs_growth(2304, 1152, 2));
    assert!(!scratch_needs_growth(4096, 1152, 2));
    assert!(scratch_needs_growth(10, usize::MAX, 2));
}

#[test]
fn underrun_fills_with_silence() {
    let (mut writer, mut reader) = ring::<u16>(16);
    write_all(&mut writer, &[1, 2, 3]);
    let mut data = vec![7u16; 8];
    let n = fill_output(&mut reader, &mut data, u16::silence());
    assert_eq!(n, 3);
    assert_eq!(data, vec![1, 2, 3, 0x8000, 0x8000, 0x8000, 0x8000, 0x8000]);
    let mut data = vec![7u16; 4];
    assert_eq!(fill_output(&mut reader, &mut data, u16::silence()), 0);
    assert_eq!(data, vec![0x8000; 4]);
    let mut empty: Vec<u16> = Vec::new();
    assert_eq!(fill_output(&mut reader, &mut empty, u16::silence()), 0);
}

#[test]
fn read_count_decides_the_silence() {
    let mut data = vec![5i16, 6, 7, 8];
    assert_eq!(fill_after_read(Ok(2), &mut data, 0), 2);
    assert_eq!(data, vec![5, 6, 0, 0]);
    let mut data = vec![5i16, 6, 7, 8];
    assert_eq!(fill_after_read(Err(rb::RbError::Empty), &mut data, -1), 0);
    assert_eq!(data, vec![-1, -1, -1, -1]);
    let mut data = vec![5i16, 6];
    assert_eq!(fill_after_read(Ok(2), &mut data, 0), 2);
    assert_eq!(data, vec![5, 6]);
}

#[test]
fn silence_values() {
    assert_eq!(i16::silence(), 0);
    assert_eq!(u16::silence(), 32768);
}

#[test]
fn written_frames_come_back_in_order() {
    let (mut writer, mut reader) = ring::<i16>(64);
    let samples: Vec<i16> = (0..50).map(|i| i * 3 - 70).collect();
    let offsets = write_all(&mut writer, &samples);
    assert_eq!(*offsets.last().unwrap(), samples.len());
    let mut out = vec![0i16; 64];
    let n = fill_output(&mut reader, &mut out, 0);
    assert_eq!(n, 50);
    assert_eq!(&out[..50], &samples[..]);
    assert!(out[50..].iter().all(|s| *s == 0));
}

#[test]
fn callbacks_read_oldest_first_across_calls() {
    let (mut writer, mut reader) = ring::<i16>(32);
    write_all(&mut writer, &[1, 2, 3, 4, 5]);
    let mut a = vec![0i16; 2];
    assert_eq!(fill_output(&mut reader, &mut a, 0), 2);
    write_all(&mut writer, &[6, 7]);
    let mut b = vec![9i16; 8];
    assert_eq!(fill_output(&mut reader, &mut b, 0), 5);
    assert_eq!(a, vec![1, 2]);
    assert_eq!(b, vec![3, 4, 5, 6, 7, 0, 0, 0]);
}

#[test]
fn write_from_end_is_done() {
    let (mut writer, _reader) = ring::<i16>(8);
    assert_eq!(write_from(&mut writer, &[1, 2, 3], 3), None);
    assert_eq!(write_from(&mut writer, &[], 0), None);
    assert_eq!(write_from(&mut writer, &[1, 2, 3], 1), Some(3));
}

#[test]
fn only_16_bit_integers_and_floats_are_output() {
    assert_eq!(select_format(DeviceFormat::I16), Ok(SampleFormat::I16));
    assert_eq!(select_format(DeviceFormat::U16), Ok(SampleFormat::U16));
    assert_eq!(select_format(DeviceFormat::F32), Ok(SampleFormat::F32));
    for d in [DeviceFormat::I8, DeviceFormat::I32, DeviceFormat::U8, DeviceFormat::F64, DeviceFormat::U64] {
        assert_eq!(select_format(d), Err(OutputError::UnsupportedFormat));
    }
}

#[test]
fn float_samples_pass_through() {
    let (mut writer, mut reader) = ring::<f32>(8);
    assert_eq!(write_from(&mut writer, &[0.25, -0.5], 0), Some(2));
    let mut data = vec![9.0f32; 4];
    assert_eq!(fill_output(&mut reader, &mut data, 0.0), 2);
    assert_eq!(data, vec![0.25, -0.5, 0.0, 0.0]);
}

#[test]
fn empty_buffers_are_skipped() {
    assert_eq!(plan_write(0, 0, 1152, 2), WritePlan::Skip);
    assert_eq!(plan_write(576, 0, 1152, 2), WritePlan::GrowAndConvert);
    assert_eq!(plan_write(576, 2304, 1152, 2), WritePlan::Convert);
}
