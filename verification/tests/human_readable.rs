use des::utils::bytes_to_human_readable;

fn float_rendering(bytes: u64) -> String {
    let bytes = bytes as f64;
    let megabytes = bytes / 1_048_576.0;
    if megabytes >= 1024.0 {
        let gigabytes = bytes / 1_073_741_824.0;
        format!("{:.2}GB", gigabytes)
    } else {
        format!("{:.2}MB", megabytes)
    }
}

#[test]
fn zero_bytes() {
    assert_eq!(bytes_to_human_readable(0), "0.00MB");
}

#[test]
fn exact_mebibytes() {
    assert_eq!(bytes_to_human_readable(1_048_576), "1.00MB");
    assert_eq!(bytes_to_human_readable(512 * 1_048_576), "512.00MB");
}

#[test]
fn switch_to_gibibytes() {
    assert_eq!(bytes_to_human_readable(1_073_741_823), "1024.00MB");
    assert_eq!(bytes_to_human_readable(1_073_741_824), "1.00GB");
    assert_eq!(bytes_to_human_readable(1_610_612_736), "1.50GB");
}

#[test]
fn ties_round_to_even() {
    // 131072 bytes are exactly 0.125 MB; 393216 bytes are exactly 0.375 MB.
    assert_eq!(bytes_to_human_readable(131_072), float_rendering(131_072));
    assert_eq!(bytes_to_human_readable(393_216), float_rendering(393_216));
}

#[test]
fn largest_values() {
    assert_eq!(bytes_to_human_readable(u64::MAX), "17179869184.00GB");
    assert_eq!(bytes_to_human_readable(u64::MAX), float_rendering(u64::MAX));
    let near = (1u64 << 53) + 1;
    assert_eq!(bytes_to_human_readable(near), float_rendering(near));
}

#[test]
fn agrees_with_float_rendering() {
    let mut x: u64 = 0x9E37_79B9_7F4A_7C15;
    for i in 0..200_000u64 {
        x ^= x << 13;
        x ^= x >> 7;
        x ^= x << 17;
        let shift = (i % 64) as u32;
        let b = x >> shift;
        assert_eq!(bytes_to_human_readable(b), float_rendering(b), "bytes = {}", b);
        let small = i * 4096 + (x % 4096);
        assert_eq!(bytes_to_human_readable(small), float_rendering(small), "bytes = {}", small);
    }
}
