use deploy_tool::render::{format_bytes, format_elapsed};

fn float_rendering(bytes: u64) -> String {
    let units = ["B", "KB", "MB", "GB", "TB"];
    let mut size = bytes as f64;
    let mut unit_index = 0;
    while size >= 1024.0 && unit_index < units.len() - 1 {
        size /= 1024.0;
        unit_index += 1;
    }
    if unit_index == 0 {
        format!("{} {}", bytes, units[unit_index])
    } else {
        format!("{:.1} {}", size, units[unit_index])
    }
}

#[test]
fn format_bytes_below_one_kilobyte_is_whole_bytes() {
    assert_eq!(format_bytes(0), "0 B");
    assert_eq!(format_bytes(1), "1 B");
    assert_eq!(format_bytes(512), "512 B");
    assert_eq!(format_bytes(1023), "1023 B");
}

#[test]
fn format_bytes_picks_the_largest_unit_that_fits() {
    assert_eq!(format_bytes(1024), "1.0 KB");
    assert_eq!(format_bytes(1536), "1.5 KB");
    assert_eq!(format_bytes(1024 * 1024), "1.0 MB");
    assert_eq!(format_bytes(5 * 1024 * 1024 + 512 * 1024), "5.5 MB");
    assert_eq!(format_bytes(2 * 1024 * 1024 * 1024), "2.0 GB");
    assert_eq!(format_bytes(3 * 1024 * 1024 * 1024 * 1024), "3.0 TB");
}

#[test]
fn format_bytes_stops_at_terabytes() {
    assert_eq!(format_bytes(1024 * 1024 * 1024 * 1024 * 1024), "1024.0 TB");
    assert_eq!(format_bytes(u64::MAX), "16777216.0 TB");
}

#[test]
fn format_bytes_rounds_ties_to_the_even_tenth() {
    // 1.25 KB and 1.75 KB lie exactly between two tenths.
    assert_eq!(format_bytes(1280), "1.2 KB");
    assert_eq!(format_bytes(1792), "1.8 KB");
    // Just below the next unit the rounded value reads 1024.0.
    assert_eq!(format_bytes(1024 * 1024 - 1), "1024.0 KB");
}

#[test]
fn format_bytes_agrees_with_float_rendering() {
    let mut samples: Vec<u64> = vec![0, 1, 1023, 1024, 1025, 1075, 1076, 1077, 1126, 1127, 1128];
    let mut x: u64 = 1;
    for i in 0..64u32 {
        let p = 1u64 << i;
        samples.push(p);
        samples.push(p - 1);
        samples.push(p + 1);
        samples.push(p.wrapping_add(p / 3));
        samples.push(p.wrapping_add(p / 20));
    }
    for _ in 0..20000 {
        // a fixed linear congruence, for reproducible samples of every size
        x = x.wrapping_mul(6364136223846793005).wrapping_add(1442695040888963407);
        samples.push(x);
        samples.push(x >> 11);
        samples.push(x >> 24);
        samples.push(x >> 40);
        samples.push(x >> 52);
    }
    samples.push(u64::MAX);
    samples.push(u64::MAX - 1);
    samples.push((1u64 << 53) + 1);
    samples.push((1u64 << 53) + 3);
    samples.push((1u64 << 63) + (1u64 << 10));
    for n in samples {
        assert_eq!(format_bytes(n), float_rendering(n), "for {}", n);
    }
}

#[test]
fn format_elapsed_pads_each_part_to_two_digits() {
    assert_eq!(format_elapsed(0), "00:00:00");
    assert_eq!(format_elapsed(59), "00:00:59");
    assert_eq!(format_elapsed(61), "00:01:01");
    assert_eq!(format_elapsed(3600), "01:00:00");
    assert_eq!(format_elapsed(3723), "01:02:03");
    assert_eq!(format_elapsed(86399), "23:59:59");
}

#[test]
fn format_elapsed_lets_the_hours_grow() {
    assert_eq!(format_elapsed(360000), "100:00:00");
    assert_eq!(format_elapsed(u64::MAX), "5124095576030431:00:15");
}
