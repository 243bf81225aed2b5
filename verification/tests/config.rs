use random_dd::config::{Args, ConfigError, RandomDd, StatusLevel};
use random_dd::size::SizeError;

fn args(bs: &str) -> Args {
    Args {
        input: None,
        output: None,
        bs: String::from(bs),
        count: None,
        skip: None,
        seek: None,
        speed: None,
        conv: Vec::new(),
        status: None,
    }
}

fn with_status(name: &str) -> Args {
    let mut given = args("1k");
    given.status = Some(String::from(name));
    given
}

fn with_conv(flags: &[&str]) -> Args {
    let mut given = args("1k");
    given.conv = flags.iter().map(|flag| String::from(*flag)).collect();
    given
}

#[test]
fn fixed_block_size_is_both_ends() {
    let dd = RandomDd::new(args("4k")).unwrap();
    assert_eq!(dd.bs_min(), 4096);
    assert_eq!(dd.bs_max(), 4096);
}

#[test]
fn block_size_range_is_kept_in_order() {
    let dd = RandomDd::new(args("10-20")).unwrap();
    assert_eq!(dd.bs_min(), 10);
    assert_eq!(dd.bs_max(), 20);
}

#[test]
fn block_size_out_of_order_is_refused() {
    let refused = RandomDd::new(args("20-10")).unwrap_err();
    assert!(matches!(refused, ConfigError::InvalidRange { .. }));
    assert_eq!(refused.message(), "Invalid block size range: min (20) > max (10)");
}

#[test]
fn bad_block_size_is_refused() {
    assert!(matches!(
        RandomDd::new(args("")),
        Err(ConfigError::Size(SizeError::NoDigits))
    ));
    assert!(matches!(
        RandomDd::new(args("4q")),
        Err(ConfigError::Size(SizeError::UnknownSuffix(_)))
    ));
}

#[test]
fn block_size_of_zero_is_no_setting() {
    let refused = RandomDd::new(args("0")).unwrap_err();
    assert!(matches!(refused, ConfigError::ZeroBlockSize));
    assert_eq!(refused.message(), "Invalid block size: must be at least one byte");
    assert!(matches!(RandomDd::new(args("0-16")), Err(ConfigError::ZeroBlockSize)));
    assert_eq!(RandomDd::new(args("1")).unwrap().bs_min(), 1);
}

#[test]
fn absent_status_is_noxfer() {
    let dd = RandomDd::new(args("1")).unwrap();
    assert_eq!(dd.status_level(), StatusLevel::Noxfer);
}

#[test]
fn status_names_map_to_levels() {
    assert_eq!(RandomDd::new(with_status("none")).unwrap().status_level(), StatusLevel::Quiet);
    assert_eq!(RandomDd::new(with_status("noxfer")).unwrap().status_level(), StatusLevel::Noxfer);
    assert_eq!(
        RandomDd::new(with_status("progress")).unwrap().status_level(),
        StatusLevel::Progress
    );
    assert_eq!(
        RandomDd::new(with_status("bitarray")).unwrap().status_level(),
        StatusLevel::BitArray
    );
}

#[test]
fn unknown_status_is_refused() {
    for name in ["", "None", "verbose", "progress ", "bit-array"] {
        match RandomDd::new(with_status(name)) {
            Err(ConfigError::InvalidStatus(kept)) => assert_eq!(kept, name),
            other => panic!("unexpected: {:?}", other),
        }
    }
    let refused = RandomDd::new(with_status("verbose")).unwrap_err();
    assert_eq!(refused.message(), "Invalid status value: verbose");
}

#[test]
fn block_size_is_judged_before_status() {
    let mut given = with_status("verbose");
    given.bs = String::from("x");
    assert!(matches!(RandomDd::new(given), Err(ConfigError::Size(_))));
}

#[test]
fn no_flags_set_nothing() {
    let dd = RandomDd::new(args("1")).unwrap();
    assert!(!dd.noerror());
    assert!(!dd.sync());
}

#[test]
fn flags_are_found_among_others() {
    let dd = RandomDd::new(with_conv(&["noerror"])).unwrap();
    assert!(dd.noerror());
    assert!(!dd.sync());
    let dd = RandomDd::new(with_conv(&["sync"])).unwrap();
    assert!(!dd.noerror());
    assert!(dd.sync());
    let dd = RandomDd::new(with_conv(&["notrunc", "sync", "noerror"])).unwrap();
    assert!(dd.noerror());
    assert!(dd.sync());
}

#[test]
fn flags_are_matched_as_written() {
    let dd = RandomDd::new(with_conv(&["NOERROR", "sync ", "no-error", "syn"])).unwrap();
    assert!(!dd.noerror());
    assert!(!dd.sync());
}

#[test]
fn texts_are_kept() {
    let mut given = args("1k-2k");
    given.input = Some(String::from("in.bin"));
    given.output = Some(String::from("out.bin"));
    given.count = Some(7);
    given.skip = Some(3);
    given.seek = Some(9);
    given.speed = Some(String::from("1m"));
    let dd = RandomDd::new(given).unwrap();
    assert_eq!(dd.args().input.as_deref(), Some("in.bin"));
    assert_eq!(dd.args().output.as_deref(), Some("out.bin"));
    assert_eq!(dd.args().bs, "1k-2k");
    assert_eq!(dd.args().count, Some(7));
    assert_eq!(dd.args().skip, Some(3));
    assert_eq!(dd.args().seek, Some(9));
    assert_eq!(dd.args().speed.as_deref(), Some("1m"));
}

#[test]
fn nothing_is_passed_over_without_skip() {
    let dd = RandomDd::new(args("4k")).unwrap();
    assert_eq!(dd.skip_offset(), None);
}

#[test]
fn skip_counts_in_largest_blocks() {
    let mut given = args("1k-4k");
    given.skip = Some(3);
    assert_eq!(RandomDd::new(given).unwrap().skip_offset(), Some(3 * 4096));
    let mut given = args("512");
    given.skip = Some(0);
    assert_eq!(RandomDd::new(given).unwrap().skip_offset(), Some(0));
}

#[test]
fn skip_stops_at_the_largest_offset() {
    let mut given = args("1p");
    given.skip = Some(u64::MAX);
    assert_eq!(RandomDd::new(given).unwrap().skip_offset(), Some(u64::MAX));
}
