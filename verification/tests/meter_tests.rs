use measure::meter::{forwarded_chunk, Meter};
use measure::report::{rate_line, SelectedUnit};

#[test]
fn fresh_meter_is_empty() {
    let m = Meter::new(5000);
    assert_eq!(m.accumulated(), 0);
    assert_eq!(m.last_report_millis(), 5000);
}

#[test]
fn no_report_before_one_second() {
    let mut m = Meter::new(0);
    assert_eq!(m.process_chunk(100, 300), None);
    assert_eq!(m.process_chunk(200, 600), None);
    assert_eq!(m.process_chunk(300, 999), None);
    assert_eq!(m.accumulated(), 600);
    assert_eq!(m.last_report_millis(), 0);
}

#[test]
fn report_at_exactly_one_second() {
    let mut m = Meter::new(0);
    assert_eq!(m.process_chunk(100, 500), None);
    assert_eq!(m.process_chunk(200, 1000), Some(300));
    assert_eq!(m.accumulated(), 0);
    assert_eq!(m.last_report_millis(), 1000);
}

#[test]
fn counter_is_zero_right_after_report() {
    let mut m = Meter::new(0);
    m.process_chunk(4096, 400);
    let report = m.process_chunk(4096, 1200);
    assert_eq!(report, Some(8192));
    assert_eq!(m.accumulated(), 0);
}

#[test]
fn slow_window_reports_whole_stretch() {
    let mut m = Meter::new(0);
    assert_eq!(m.process_chunk(50, 7500), Some(50));
    assert_eq!(m.last_report_millis(), 7500);
}

#[test]
fn reports_plus_remainder_account_for_every_byte() {
    let chunks: [(u64, i64); 7] =
        [(10, 100), (20, 700), (30, 1100), (5, 1500), (0, 1900), (25, 2200), (40, 2500)];
    let mut m = Meter::new(0);
    let mut total: u64 = 0;
    let mut reported: u64 = 0;
    for (n, now) in chunks {
        total += n;
        if let Some(v) = m.process_chunk(n, now) {
            reported += v;
        }
    }
    assert_eq!(reported + m.accumulated(), total);
}

#[test]
fn forwarded_chunk_is_exact_prefix() {
    let buf = vec![1u8, 2, 3, 4, 5, 6, 7, 8];
    assert_eq!(forwarded_chunk(&buf, 0), Vec::<u8>::new());
    assert_eq!(forwarded_chunk(&buf, 3), vec![1, 2, 3]);
    assert_eq!(forwarded_chunk(&buf, 8), buf);
}

#[test]
fn passthrough_independent_of_chunking() {
    let input: Vec<u8> = (0..1000u32).map(|i| (i * 31 % 251) as u8).collect();
    let mut out_a: Vec<u8> = Vec::new();
    for piece in input.chunks(64) {
        out_a.extend_from_slice(&forwarded_chunk(&piece.to_vec(), piece.len()));
    }
    let mut out_b: Vec<u8> = Vec::new();
    for piece in input.chunks(173) {
        out_b.extend_from_slice(&forwarded_chunk(&piece.to_vec(), piece.len()));
    }
    assert_eq!(out_a, input);
    assert_eq!(out_b, input);
}

#[test]
fn end_to_end_constant_rate_run() {
    // 2,500,000 bytes delivered as 250 chunks of 10,000 bytes, one every
    // 9 ms: about 2.2 seconds at a constant rate, auto units, no timestamp.
    let mut input: Vec<u8> = Vec::new();
    let mut output: Vec<u8> = Vec::new();
    let mut lines: Vec<String> = Vec::new();
    let mut m = Meter::new(0);
    for i in 1..=250i64 {
        let chunk: Vec<u8> = (0..10000u32).map(|j| ((i as u32) * 131 + j * 7) as u8).collect();
        input.extend_from_slice(&chunk);
        let forwarded = forwarded_chunk(&chunk, chunk.len());
        output.extend_from_slice(&forwarded);
        if let Some(v) = m.process_chunk(chunk.len() as u64, 9 * i) {
            lines.push(rate_line(v, SelectedUnit::Auto, false));
        }
    }
    assert_eq!(input.len(), 2500000);
    assert_eq!(output, input);
    // Two full one-second windows close (at 1008 ms and 2016 ms), each
    // having accumulated 1,120,000 bytes; the trailing partial window is
    // never reported.
    assert_eq!(lines.len(), 2);
    assert_eq!(lines[0], "1.0M/s\n");
    assert_eq!(lines[1], "1.0M/s\n");
    assert_eq!(m.accumulated(), 260000);
}
