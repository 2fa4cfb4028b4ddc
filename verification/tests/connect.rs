use std::time::Duration;

use wasefire_tools::connect::{
    ConnectError, ConnectStep, ConnectionOptions, ListStep, Platform, PlatformList, Report,
    ReportLine, SelectError,
};
use wasefire_tools::hex::Hex;

const TIMEOUT: Duration = Duration::from_secs(1);

type Outcome = Result<&'static str, ConnectError<&'static str, &'static str>>;

fn options(serial: Option<&str>) -> ConnectionOptions {
    ConnectionOptions {
        serial: serial.map(|x| Hex::from_str(x).unwrap()),
        timeout: TIMEOUT,
    }
}

/// Runs a search and returns which candidates it opened.
fn search(
    options: &ConnectionOptions, probes: &[Result<(&'static str, Vec<u8>), &'static str>],
) -> (Outcome, Vec<usize>) {
    let mut opened = Vec::new();
    let mut step = options.connect(Ok((0 .. probes.len()).collect()));
    loop {
        match step {
            ConnectStep::Open { candidate, timeout, search } => {
                assert_eq!(timeout, TIMEOUT);
                opened.push(candidate);
                let probe = match probes[candidate].clone() {
                    Ok((connection, serial)) => Ok(Platform { connection, serial }),
                    Err(error) => Err(error),
                };
                step = options.probed(search, probe);
            }
            ConnectStep::Done(outcome) => return (outcome, opened),
        }
    }
}

fn select_error(outcome: Outcome) -> SelectError<&'static str> {
    match outcome {
        Err(ConnectError::Select(error)) => error,
        _ => panic!(),
    }
}

fn lines(report: &Report<&'static str>) -> Vec<String> {
    report
        .lines
        .iter()
        .map(|line| match line {
            ReportLine::Text(text) => text.clone(),
            ReportLine::Connection { bullet, connection } => format!("{bullet}{connection}"),
        })
        .collect()
}

#[test]
fn only_platform_is_connected() {
    let (outcome, opened) = search(&options(None), &[Ok(("a", vec![1]))]);
    assert!(matches!(outcome, Ok("a")));
    assert_eq!(opened, [0]);
}

#[test]
fn platform_with_the_serial_is_connected() {
    let probes = [Ok(("a", vec![1])), Ok(("b", vec![0xab, 2])), Ok(("c", vec![]))];
    let (outcome, opened) = search(&options(Some("AB02")), &probes);
    assert!(matches!(outcome, Ok("b")));
    assert_eq!(opened, [0, 1, 2]);
    assert!(matches!(search(&options(Some("")), &probes).0, Ok("c")));
}

#[test]
fn no_platform_is_reported() {
    let options = options(None);
    let (outcome, opened) = search(&options, &[]);
    assert!(opened.is_empty());
    let error = select_error(outcome);
    assert!(matches!(error, SelectError::NotFound));
    let report = options.explain(&error);
    assert!(report.lines.is_empty());
    assert_eq!(report.message, "no connected platforms");
}

#[test]
fn no_platform_with_the_serial_is_reported() {
    let options = options(Some("C0DE"));
    let (outcome, _) = search(&options, &[Ok(("a", vec![0xc0])), Ok(("b", vec![0xc0, 0xdf]))]);
    let error = select_error(outcome);
    let report = options.explain(&error);
    assert!(report.lines.is_empty());
    assert_eq!(report.message, "no connected platforms with serial=c0de");
}

#[test]
fn several_platforms_are_listed_by_serial() {
    let options = options(None);
    let (outcome, _) = search(&options, &[Ok(("a", vec![0x0a])), Ok(("b", vec![0xff, 0x10]))]);
    let error = select_error(outcome);
    let report = options.explain(&error);
    assert_eq!(lines(&report), [
        "Choose one of the connected platforms using its serial:",
        "--serial=0a",
        "--serial=ff10",
    ]);
    assert_eq!(report.message, "more than one connected platform");
}

#[test]
fn several_platforms_with_the_serial_are_listed_by_connection() {
    let options = options(Some("0a"));
    let probes = [Ok(("a", vec![0x0a])), Ok(("b", vec![0x0b])), Ok(("c", vec![0x0a]))];
    let (outcome, _) = search(&options, &probes);
    let error = select_error(outcome);
    let report = options.explain(&error);
    assert_eq!(lines(&report), ["Multiple connected platforms with serial=0a:", "- a", "- c"]);
    assert_eq!(report.message, "more than one connected platform with serial=0a");
}

#[test]
fn suggested_serial_connects() {
    let probes = [Ok(("a", vec![0x0a])), Ok(("b", vec![0xff, 0x10]))];
    let unknown = options(None);
    let error = select_error(search(&unknown, &probes).0);
    let report = unknown.explain(&error);
    for (line, name) in lines(&report)[1 ..].iter().zip(["a", "b"]) {
        let serial = line.strip_prefix("--serial=").unwrap();
        let (outcome, _) = search(&options(Some(serial)), &probes);
        match outcome {
            Ok(connection) => assert_eq!(connection, name),
            Err(_) => panic!(),
        }
    }
}

#[test]
fn order_of_the_candidates_does_not_matter() {
    let a = Ok(("a", vec![1]));
    let b = Ok(("b", vec![2]));
    let c = Ok(("c", vec![2]));
    let orders = [
        [a.clone(), b.clone(), c.clone()],
        [c.clone(), a.clone(), b.clone()],
        [b.clone(), c.clone(), a.clone()],
    ];
    for probes in &orders {
        assert!(matches!(search(&options(Some("01")), probes).0, Ok("a")));
        assert!(matches!(
            search(&options(Some("03")), probes).0,
            Err(ConnectError::Select(SelectError::NotFound))
        ));
        let options = options(Some("02"));
        let error = select_error(search(&options, probes).0);
        let report = options.explain(&error);
        assert_eq!(report.message, "more than one connected platform with serial=02");
        let mut lines = lines(&report);
        assert_eq!(lines.remove(0), "Multiple connected platforms with serial=02:");
        lines.sort();
        assert_eq!(lines, ["- b", "- c"]);
    }
    let failed = Err("broken");
    for probes in [[a.clone(), failed.clone()], [failed, a]] {
        let (outcome, _) = search(&options(Some("09")), &probes);
        assert!(matches!(outcome, Err(ConnectError::Device("broken"))));
    }
}

#[test]
fn first_failure_ends_the_search() {
    let probes = [Ok(("a", vec![1])), Err("first"), Err("second"), Ok(("d", vec![2]))];
    let (outcome, opened) = search(&options(None), &probes);
    assert!(matches!(outcome, Err(ConnectError::Device("first"))));
    assert_eq!(opened, [0, 1]);
}

#[test]
fn failed_listing_ends_the_search() {
    let step: ConnectStep<u8, u8, &str> = options(None).connect(Err("no bus"));
    assert!(matches!(step, ConnectStep::Done(Err(ConnectError::Device("no bus")))));
}

#[test]
fn cloned_options_are_the_same() {
    let options = options(Some("0a0b")).clone();
    assert_eq!(options.serial.unwrap().0, [0x0a, 0x0b]);
    assert_eq!(options.timeout, TIMEOUT);
}

/// Runs a listing and returns how many candidates it opened.
fn list(probes: &[Result<u8, &'static str>]) -> (String, Result<Vec<u8>, &'static str>, usize) {
    let list = PlatformList { timeout: TIMEOUT };
    let candidates: Result<Vec<usize>, &'static str> = Ok((0 .. probes.len()).collect());
    let (header, mut step) = match list.run(candidates) {
        Ok(start) => start,
        Err(error) => panic!("{}", error),
    };
    let mut opened = 0;
    loop {
        match step {
            ListStep::Open { candidate, timeout, listing } => {
                assert_eq!(timeout, TIMEOUT);
                assert_eq!(candidate, opened);
                opened += 1;
                step = listing.probed(probes[candidate]);
            }
            ListStep::Done(outcome) => return (header, outcome, opened),
        }
    }
}

#[test]
fn listing_tells_of_all() {
    let (header, outcome, opened) = list(&[Ok(7), Ok(7), Ok(9)]);
    assert_eq!(header, "There are 3 connected platforms:");
    assert_eq!(outcome, Ok(vec![7, 7, 9]));
    assert_eq!(opened, 3);
}

#[test]
fn empty_listing_has_a_header_too() {
    let (header, outcome, opened) = list(&[]);
    assert_eq!(header, "There are 0 connected platforms:");
    assert_eq!(outcome, Ok(vec![]));
    assert_eq!(opened, 0);
}

#[test]
fn order_of_the_candidates_does_not_matter_to_a_listing() {
    for probes in [[Ok(7), Ok(9), Ok(7)], [Ok(9), Ok(7), Ok(7)]] {
        let (header, outcome, _) = list(&probes);
        assert_eq!(header, "There are 3 connected platforms:");
        let mut platforms = outcome.unwrap();
        platforms.sort();
        assert_eq!(platforms, [7, 7, 9]);
    }
}

#[test]
fn first_failure_ends_the_listing() {
    let (header, outcome, opened) = list(&[Ok(7), Err("gone"), Ok(9)]);
    assert_eq!(header, "There are 3 connected platforms:");
    assert_eq!(outcome, Err("gone"));
    assert_eq!(opened, 2);
}

#[test]
fn failed_bus_ends_the_listing() {
    let list = PlatformList { timeout: TIMEOUT };
    assert!(matches!(list.run::<u8, u8, &str>(Err("no bus")), Err("no bus")));
}
