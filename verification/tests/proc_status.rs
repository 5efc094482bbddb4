use pleiades_worker::proc_status::parse_ctx_switches;

fn parse(s: &str) -> (u64, u64) {
    parse_ctx_switches(&s.chars().collect::<Vec<char>>())
}

#[test]
fn reads_a_status_file() {
    let text = "Name:\tworker\nState:\tS (sleeping)\nThreads:\t1\nvoluntary_ctxt_switches:\t1523\nnonvoluntary_ctxt_switches:\t42\n";
    assert_eq!(parse(text), (1523, 42));
}

#[test]
fn missing_or_bad_numbers_count_as_zero() {
    assert_eq!(parse(""), (0, 0));
    assert_eq!(parse("voluntary_ctxt_switches:\tabc\nnonvoluntary_ctxt_switches: 7"), (0, 7));
    assert_eq!(parse("voluntary_ctxt_switches: -3\n"), (0, 0));
    assert_eq!(parse("voluntary_ctxt_switches: 18446744073709551616\n"), (0, 0));
    assert_eq!(parse("voluntary_ctxt_switches: 18446744073709551615\n"), (u64::MAX, 0));
    assert_eq!(parse("voluntary_ctxt_switches:\n"), (0, 0));
    assert_eq!(parse("voluntary_ctxt_switches: +\n"), (0, 0));
}

#[test]
fn numbers_are_trimmed_and_may_carry_a_plus() {
    assert_eq!(parse("voluntary_ctxt_switches:  +12 \r\nnonvoluntary_ctxt_switches:\u{a0}9\u{3000}"), (12, 9));
    assert_eq!(parse("voluntary_ctxt_switches:1 2\n"), (0, 0));
}

#[test]
fn reading_stops_after_the_involuntary_count() {
    let text = "nonvoluntary_ctxt_switches: 5\nvoluntary_ctxt_switches: 9\n";
    assert_eq!(parse(text), (0, 5));
    let text = "voluntary_ctxt_switches: 1\nvoluntary_ctxt_switches: 2\nnonvoluntary_ctxt_switches: 3\nnonvoluntary_ctxt_switches: 4\n";
    assert_eq!(parse(text), (2, 3));
}

#[test]
fn keys_must_start_the_line() {
    assert_eq!(parse(" voluntary_ctxt_switches: 5\nxvoluntary_ctxt_switches: 6\n"), (0, 0));
}
