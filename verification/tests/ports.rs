use portscanner::ports::{parse_port_range, ports_in_range, DEFAULT_END_PORT, DEFAULT_START_PORT};

#[test]
fn reads_a_plain_range() {
    assert_eq!(parse_port_range("1-1000"), (1, 1000));
    assert_eq!(parse_port_range("80-443"), (80, 443));
    assert_eq!(parse_port_range("1-65535"), (1, 65535));
    assert_eq!(parse_port_range("0-0"), (0, 0));
    assert_eq!(parse_port_range("65535-65535"), (65535, 65535));
}

#[test]
fn malformed_range_gives_the_defaults() {
    assert_eq!(parse_port_range("abc"), (1, 65535));
    assert_eq!(parse_port_range(""), (1, 65535));
    assert_eq!(parse_port_range("-"), (1, 65535));
    assert_eq!(parse_port_range("a-b"), (1, 65535));
    assert_eq!(parse_port_range(" 1 - 2 "), (1, 65535));
    assert_eq!((DEFAULT_START_PORT, DEFAULT_END_PORT), (1, 65535));
}

#[test]
fn each_side_defaults_alone() {
    assert_eq!(parse_port_range("80"), (80, 65535));
    assert_eq!(parse_port_range("80-"), (80, 65535));
    assert_eq!(parse_port_range("-443"), (1, 443));
    assert_eq!(parse_port_range("x-443"), (1, 443));
    assert_eq!(parse_port_range("80-x"), (80, 65535));
    assert_eq!(parse_port_range("65536-70000"), (1, 65535));
    assert_eq!(parse_port_range("70000-5"), (1, 5));
    assert_eq!(parse_port_range("1_0-2"), (1, 2));
}

#[test]
fn signs_zeros_and_further_pieces() {
    assert_eq!(parse_port_range("+5-+7"), (5, 7));
    assert_eq!(parse_port_range("+-7"), (1, 7));
    assert_eq!(parse_port_range("0080-000000000443"), (80, 443));
    assert_eq!(parse_port_range("1-2-3"), (1, 65535));
    assert_eq!(parse_port_range("1-2-"), (1, 65535));
    assert_eq!(parse_port_range("1--2"), (1, 65535));
    assert_eq!(parse_port_range("--3"), (1, 65535));
    assert_eq!(parse_port_range("٣-4"), (1, 4));
    assert_eq!(parse_port_range("é1-4"), (1, 4));
}

#[test]
fn inverted_range_is_kept_and_holds_no_port() {
    assert_eq!(parse_port_range("10-5"), (10, 5));
    assert_eq!(ports_in_range(10, 5), Vec::<u16>::new());
    assert_eq!(ports_in_range(65535, 0), Vec::<u16>::new());
}

#[test]
fn written_ranges_read_back() {
    let samples: [u16; 9] = [0, 1, 9, 10, 99, 100, 1024, 65534, 65535];
    for a in samples {
        for b in samples {
            assert_eq!(parse_port_range(&format!("{}-{}", a, b)), (a, b));
        }
    }
}

#[test]
fn agrees_with_split_in_two_and_parse() {
    let samples = ["1-2", "", "-", "7", "7-", "-7", "+1-+2", "1-2-3", "a-2", "99999-1", "1--2", "12-0034"];
    for s in samples {
        let parts: Vec<&str> = s.splitn(2, '-').collect();
        let start: u16 = parts.first().and_then(|p| p.parse().ok()).unwrap_or(1);
        let end: u16 = parts.get(1).and_then(|p| p.parse().ok()).unwrap_or(65535);
        assert_eq!(parse_port_range(s), (start, end));
    }
}

#[test]
fn lists_the_ports_of_a_range() {
    assert_eq!(ports_in_range(20, 22), vec![20, 21, 22]);
    assert_eq!(ports_in_range(7, 7), vec![7]);
    assert_eq!(ports_in_range(65535, 65535), vec![65535]);
    assert_eq!(ports_in_range(65533, 65535), vec![65533, 65534, 65535]);
    let all = ports_in_range(0, 65535);
    assert_eq!(all.len(), 65536);
    assert_eq!(all[0], 0);
    assert_eq!(all[65535], 65535);
}
