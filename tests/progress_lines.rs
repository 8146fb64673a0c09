use yt_clipper::progress::{decode_status, decode_structured, percent_of_field, FULL};

#[test]
fn structured_record_fields() {
    let r = decode_structured("PROGRESS|45.0%| 1.2MiB/s|00:10|10MiB", "job-1").unwrap();
    assert_eq!(r.percent_hundredths, 4500);
    assert_eq!(r.downloaded, "45%");
    assert_eq!(r.total, "10MiB");
    assert_eq!(r.rate, "1.2MiB/s");
    assert_eq!(r.eta, "00:10");
    assert_eq!(r.job_id, "job-1");
}

#[test]
fn structured_placeholders_for_unknown_rate_and_eta() {
    let r = decode_structured("PROGRESS|  3.5%|NA|NA|N/A", "j").unwrap();
    assert_eq!(r.percent_hundredths, 350);
    assert_eq!(r.rate, "Calculating…");
    assert_eq!(r.eta, "--:--");
    assert_eq!(r.downloaded, "4%");
}

#[test]
fn structured_malformed_percent_counts_as_zero() {
    let r = decode_structured("PROGRESS|abc%|1MiB/s|00:01|5MiB", "j").unwrap();
    assert_eq!(r.percent_hundredths, 0);
    assert_eq!(r.downloaded, "0%");
}

#[test]
fn structured_percent_is_capped() {
    let r = decode_structured("PROGRESS|150.0%|1MiB/s|00:00|5MiB", "j").unwrap();
    assert_eq!(r.percent_hundredths, FULL);
    assert_eq!(r.downloaded, "100%");
}

#[test]
fn structured_other_lines_give_nothing() {
    assert!(decode_structured("[download] Destination: x.mp4", "j").is_none());
    assert!(decode_structured("PROGRESS|45.0%|1MiB/s|00:10", "j").is_none());
    assert!(decode_structured("PROGRES|45.0%|1MiB/s|00:10|1MiB", "j").is_none());
    assert!(decode_structured("", "j").is_none());
}

#[test]
fn structured_same_line_twice_gives_same_record() {
    let line = "PROGRESS|12.34%|2.0MiB/s|01:02|99.9MiB";
    let a = decode_structured(line, "first").unwrap();
    let b = decode_structured(line, "second").unwrap();
    assert_eq!(a.percent_hundredths, b.percent_hundredths);
    assert_eq!(a.rate, b.rate);
    assert_eq!(a.eta, b.eta);
    assert_eq!(a.downloaded, b.downloaded);
    assert_eq!(a.total, b.total);
    assert_eq!(a.percent_hundredths, 1234);
    assert_ne!(a.job_id, b.job_id);
}

#[test]
fn status_line_half_way() {
    let r = decode_status("frame=10 time=00:01:05.00 bitrate=512kbits/s", 130_000, "j").unwrap();
    assert_eq!(r.percent_hundredths, 5000);
    assert_eq!(r.rate, "512kbits/s");
    assert_eq!(r.downloaded, "50%");
    assert_eq!(r.eta, "--:--");
    assert_eq!(r.total, "100%");
}

#[test]
fn status_line_with_padding_and_hours() {
    let r = decode_status("size=     256kB time=01:00:00.50 bitrate= 1.0kbits/s speed=1x", 7_200_000, "j")
        .unwrap();
    assert_eq!(r.percent_hundredths, 5000);
    assert_eq!(r.rate, "Calculating…");
}

#[test]
fn status_line_past_the_end_is_capped() {
    let r = decode_status("time=00:03:00.00 bitrate=1kbits/s", 60_000, "j").unwrap();
    assert_eq!(r.percent_hundredths, FULL);
}

#[test]
fn status_line_without_time_or_duration_gives_nothing() {
    assert!(decode_status("frame=10 bitrate=512kbits/s", 130_000, "j").is_none());
    assert!(decode_status("frame=10 time=00:01:05.00", 0, "j").is_none());
    assert!(decode_status("frame=10 time=N/A bitrate=N/A", 1000, "j").is_none());
    assert!(decode_status("time=00:01", 1000, "j").is_none());
}

#[test]
fn percent_fields() {
    assert_eq!(percent_of_field(" 45.0%"), 4500);
    assert_eq!(percent_of_field("7%"), 700);
    assert_eq!(percent_of_field("99.999%"), 9999);
    assert_eq!(percent_of_field("1.2.3%"), 0);
    assert_eq!(percent_of_field(""), 0);
}

#[test]
fn status_line_tokens_split_on_tabs_too() {
    let r = decode_status("frame=10\ttime=00:01:05.00\tbitrate=512kbits/s", 130_000, "j").unwrap();
    assert_eq!(r.percent_hundredths, 5000);
    assert_eq!(r.rate, "512kbits/s");
}
