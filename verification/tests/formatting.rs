use rng::formatting::format_bytes_written;

#[test]
fn test_format_bytes_written() {
    assert_eq!(format_bytes_written(0), "0 bytes");
    assert_eq!(format_bytes_written(1), "1 bytes");
    assert_eq!(format_bytes_written(2), "2 bytes");
    assert_eq!(format_bytes_written(1023), "1023 bytes");
    assert_eq!(format_bytes_written(1024), "1.0 KiB");
    assert_eq!(format_bytes_written(1025), "1.0 KiB");

    assert_eq!(format_bytes_written(1075), "1.0 KiB");
    assert_eq!(format_bytes_written(1076), "1.1 KiB");

    assert_eq!(format_bytes_written(1024 * 1024), "1.0 MiB");

    assert_eq!(format_bytes_written(u64::MAX), "16.0 EiB");
}

#[test]
fn format_every_unit_prefix() {
    assert_eq!(format_bytes_written(1024 * 1024 * 1024), "1.0 GiB");
    assert_eq!(format_bytes_written(1024u64.pow(4)), "1.0 TiB");
    assert_eq!(format_bytes_written(1024u64.pow(5)), "1.0 PiB");
    assert_eq!(format_bytes_written(1024u64.pow(6)), "1.0 EiB");
}

#[test]
fn format_rounds_to_one_decimal() {
    // 1130 / 1024 = 1.103..., printed with one decimal digit.
    assert_eq!(format_bytes_written(1130), "1.1 KiB");
    // 1536 / 1024 = 1.5 exactly.
    assert_eq!(format_bytes_written(1536), "1.5 KiB");
    // 1024^2 - 1 scales to 1023.999... KiB, which rounds up to 1024.0 KiB.
    assert_eq!(format_bytes_written(1024 * 1024 - 1), "1024.0 KiB");
    // A tie (1280 / 1024 = 1.25) goes to the even digit.
    assert_eq!(format_bytes_written(1280), "1.2 KiB");
    assert_eq!(format_bytes_written(1104), "1.1 KiB");
}
