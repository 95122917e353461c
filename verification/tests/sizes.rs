use local_db::sizes::format_file_size;

fn by_floats(size: u64) -> String {
    const UNITS: &[&str] = &["B", "KB", "MB", "GB", "TB"];
    let mut size = size as f64;
    let mut unit_index = 0;
    while size >= 1024.0 && unit_index < UNITS.len() - 1 {
        size /= 1024.0;
        unit_index += 1;
    }
    format!("{:.2} {}", size, UNITS[unit_index])
}

#[test]
fn sizes_as_they_are_shown() {
    assert_eq!(format_file_size(0), "0.00 B");
    assert_eq!(format_file_size(1), "1.00 B");
    assert_eq!(format_file_size(1023), "1023.00 B");
    assert_eq!(format_file_size(1024), "1.00 KB");
    assert_eq!(format_file_size(1536), "1.50 KB");
    assert_eq!(format_file_size(1048576), "1.00 MB");
    assert_eq!(format_file_size(5 * 1024 * 1024 * 1024), "5.00 GB");
    assert_eq!(format_file_size(1099511627776), "1.00 TB");
    assert_eq!(format_file_size(u64::MAX), "16777216.00 TB");
}

#[test]
fn halves_go_to_the_even_hundredth() {
    // 1029.12 B over 1024 lies exactly between 1.00 and 1.01.
    assert_eq!(format_file_size(1024 * 201 / 200), by_floats(1024 * 201 / 200));
    for n in [1280u64, 1285, 1290, 1295, 5157, 5158, 15365, 1034, 1039, 1044, 1049] {
        assert_eq!(format_file_size(n), by_floats(n), "{}", n);
    }
    // 2^20 * 0.005 = 5242.88: no whole number of bytes is a half there, but near ones are close.
    for n in 1048576u64 + 5200..1048576 + 5300 {
        assert_eq!(format_file_size(n), by_floats(n), "{}", n);
    }
}

#[test]
fn small_sizes_are_shown_as_floating_point_shows_them() {
    for n in 0u64..300_000 {
        assert_eq!(format_file_size(n), by_floats(n), "{}", n);
    }
}

#[test]
fn sizes_about_the_units_are_shown_as_floating_point_shows_them() {
    for k in 1u32..=6 {
        let unit = 1024u128.pow(k);
        for d in -2000i128..2000 {
            let n = unit as i128 + d;
            if n >= 0 && n <= u64::MAX as i128 {
                let n = n as u64;
                assert_eq!(format_file_size(n), by_floats(n), "{}", n);
            }
        }
    }
}

#[test]
fn large_sizes_are_shown_as_floating_point_shows_them() {
    let mut seed: u64 = 0x9E37_79B9_7F4A_7C15;
    for round in 0..200_000u32 {
        seed ^= seed << 13;
        seed ^= seed >> 7;
        seed ^= seed << 17;
        let n = seed >> (round % 64);
        assert_eq!(format_file_size(n), by_floats(n), "{}", n);
    }
    for shift in 52..64u32 {
        let base = 1u64 << shift;
        for d in 0..5000u64 {
            for n in [base.wrapping_add(d), base.wrapping_sub(d), u64::MAX - d] {
                assert_eq!(format_file_size(n), by_floats(n), "{}", n);
            }
        }
    }
}
