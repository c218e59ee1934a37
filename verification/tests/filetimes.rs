use media_organizer::filetime::{filetime_to_system_time, system_time_to_filetime, FileTime};

#[test]
fn unix_epoch_maps_to_the_known_interval_count() {
    // 11644473600 s * 10^7 intervals/s = 116444736000000000 intervals
    let ft = system_time_to_filetime(0);
    let intervals = (ft.high as u64) << 32 | ft.low as u64;
    assert_eq!(intervals, 116444736000000000);
}

#[test]
fn conversion_rounds_down_to_the_interval_grain() {
    let ft = system_time_to_filetime(1_000_000_099);
    let intervals = (ft.high as u64) << 32 | ft.low as u64;
    assert_eq!(intervals, 116444736000000000 + 10_000_000);
}

#[test]
fn round_trip_keeps_whole_intervals() {
    let nanos: u64 = 1_700_000_000_000_000_000;
    let ft = system_time_to_filetime(nanos);
    assert_eq!(filetime_to_system_time(ft), nanos);
}

#[test]
fn filetime_halves_recombine() {
    let ft = FileTime { low: 0xD53E8000, high: 0x019DB1DE };
    assert_eq!(filetime_to_system_time(ft), 0);
}
