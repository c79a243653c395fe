use toitoi::render::{decimal, directory_warning, header, row, usage};
use toitoi::report::{opening, step, Opening, ReadFailure, Report, Step};
use toitoi::{Config, Counts};

#[test]
fn decimal_numerals() {
    assert_eq!(decimal(0), "0");
    assert_eq!(decimal(7), "7");
    assert_eq!(decimal(10), "10");
    assert_eq!(decimal(109), "109");
    assert_eq!(decimal(1234567890), "1234567890");
    assert_eq!(decimal(usize::MAX), usize::MAX.to_string());
}

#[test]
fn a_row_has_two_blanks_between_fields() {
    assert_eq!(row(5, 21, 120, "notes.txt"), "5  21  120  notes.txt");
    assert_eq!(row(0, 0, 0, ""), "0  0  0  ");
}

#[test]
fn header_names_the_metric() {
    assert_eq!(header(true), "L:  W:  C:  File:");
    assert_eq!(header(false), "L:  W:  B:  File:");
}

#[test]
fn usage_block() {
    let lines: Vec<&str> = usage().lines().collect();
    assert_eq!(
        lines,
        vec![
            "Usage: toitoi [OPTION] [FILE]",
            "Print line, word, byte count for FILE",
            "",
            "  -c, --chars  Print the number of characters instead of bytes",
            "  -h, --help   Display this help and exit",
        ]
    );
}

#[test]
fn directory_warning_names_the_path() {
    assert_eq!(directory_warning("src"), "src is a directory.");
}

#[test]
fn help_opens_with_usage() {
    let config = Config::build(vec![String::from("prog"), String::from("--help")]).unwrap();
    assert_eq!(opening(&config), Opening::Usage(usage()));
}

#[test]
fn a_report_opens_with_its_header() {
    let config = Config::build(vec![String::from("prog"), String::from("a")]).unwrap();
    assert_eq!(opening(&config), Opening::Header("L:  W:  B:  File:"));
    let config =
        Config::build(vec![String::from("prog"), String::from("-c"), String::from("a")]).unwrap();
    assert_eq!(opening(&config), Opening::Header("L:  W:  C:  File:"));
}

#[test]
fn counts_of_a_text_by_metric() {
    let text = "hąhą ńó\nąśćii\n";
    assert_eq!(Counts::of(text, false), Counts { lines: 2, words: 3, bc: 21 });
    assert_eq!(Counts::of(text, true), Counts { lines: 2, words: 3, bc: 14 });
}

#[test]
fn totals_add_up() {
    let mut totals = Counts::zero();
    assert_eq!(totals, Counts { lines: 0, words: 0, bc: 0 });
    totals.add(&Counts { lines: 1, words: 2, bc: 3 });
    totals.add(&Counts { lines: 10, words: 20, bc: 30 });
    assert_eq!(totals, Counts { lines: 11, words: 22, bc: 33 });
    assert_eq!(totals.total_row(), "11  22  33  total");
}

#[test]
fn room_is_checked_field_by_field() {
    let full = Counts { lines: usize::MAX, words: 0, bc: 0 };
    assert!(full.room_for(&Counts { lines: 0, words: 5, bc: 5 }));
    assert!(!full.room_for(&Counts { lines: 1, words: 0, bc: 0 }));
    let near = Counts { lines: 0, words: usize::MAX - 1, bc: usize::MAX };
    assert!(near.room_for(&Counts { lines: 9, words: 1, bc: 0 }));
    assert!(!near.room_for(&Counts { lines: 0, words: 2, bc: 0 }));
    assert!(!near.room_for(&Counts { lines: 0, words: 0, bc: 1 }));
}

#[test]
fn only_a_directory_is_passed_over() {
    assert!(ReadFailure::IsDirectory.skippable());
    assert!(!ReadFailure::NotFound.skippable());
    assert!(!ReadFailure::PermissionDenied.skippable());
    assert!(!ReadFailure::Other.skippable());
}

#[test]
fn two_files_and_a_directory() {
    let first = "one two\nthree\n";
    let second = "ą ś\n";
    let reads = [
        ("a.txt", Ok(Counts::of(first, false))),
        ("dir", Err(ReadFailure::IsDirectory)),
        ("b.txt", Ok(Counts::of(second, false))),
    ];
    let mut totals = Counts::zero();
    let mut out: Vec<String> = Vec::new();
    let mut err: Vec<String> = Vec::new();
    for (path, read) in reads {
        match step(&mut totals, path, read) {
            Step::Row(line) => out.push(line),
            Step::Skipped(line) => err.push(line),
            Step::Fatal => panic!("no read failed for good"),
        }
    }
    out.push(totals.total_row());
    assert_eq!(out, vec!["2  3  14  a.txt", "1  2  6  b.txt", "3  5  20  total"]);
    assert_eq!(err, vec!["dir is a directory."]);
    assert_eq!(totals, Counts { lines: 3, words: 5, bc: 20 });
}

#[test]
fn a_failed_read_ends_the_run() {
    let mut totals = Counts { lines: 4, words: 5, bc: 6 };
    assert_eq!(step(&mut totals, "gone", Err(ReadFailure::NotFound)), Step::Fatal);
    assert_eq!(step(&mut totals, "shut", Err(ReadFailure::PermissionDenied)), Step::Fatal);
    assert_eq!(step(&mut totals, "odd", Err(ReadFailure::Other)), Step::Fatal);
    assert_eq!(totals, Counts { lines: 4, words: 5, bc: 6 });
}

fn config(tokens: &[&str]) -> Config {
    Config::build(tokens.iter().map(|t| String::from(*t)).collect()).unwrap()
}

#[test]
fn a_help_report_waits_for_no_file() {
    let report = Report::new(config(&["prog", "--help"]));
    assert_eq!(report.opening(), Opening::Usage(usage()));
    assert_eq!(report.awaited(), None);
    assert_eq!(report.closing(), None);
}

#[test]
fn a_report_over_two_files_and_a_directory() {
    let mut report = Report::new(config(&["prog", "a.txt", "dir", "b.txt"]));
    assert_eq!(report.opening(), Opening::Header("L:  W:  B:  File:"));
    assert_eq!(report.closing(), None);

    assert_eq!(report.awaited(), Some("a.txt"));
    let read = Ok(Counts::of("one two\nthree\n", report.config.chars));
    assert_eq!(report.take(read), Step::Row(String::from("2  3  14  a.txt")));

    assert_eq!(report.awaited(), Some("dir"));
    assert_eq!(
        report.take(Err(ReadFailure::IsDirectory)),
        Step::Skipped(String::from("dir is a directory."))
    );
    assert_eq!(report.totals, Counts { lines: 2, words: 3, bc: 14 });
    assert_eq!(report.closing(), None);

    assert_eq!(report.awaited(), Some("b.txt"));
    let read = Ok(Counts::of("ą ś\n", report.config.chars));
    assert_eq!(report.take(read), Step::Row(String::from("1  2  6  b.txt")));

    assert_eq!(report.awaited(), None);
    assert!(!report.failed);
    assert_eq!(report.totals, Counts { lines: 3, words: 5, bc: 20 });
    assert_eq!(report.closing(), Some(String::from("3  5  20  total")));
}

#[test]
fn a_report_in_characters() {
    let mut report = Report::new(config(&["prog", "-c", "b.txt"]));
    assert_eq!(report.opening(), Opening::Header("L:  W:  C:  File:"));
    assert_eq!(report.awaited(), Some("b.txt"));
    let read = Ok(Counts::of("ą ś\n", report.config.chars));
    assert_eq!(report.take(read), Step::Row(String::from("1  2  4  b.txt")));
    assert_eq!(report.closing(), Some(String::from("1  2  4  total")));
}

#[test]
fn a_report_ends_at_the_first_read_that_fails_for_good() {
    let mut report = Report::new(config(&["prog", "a.txt", "gone", "b.txt"]));
    assert_eq!(report.awaited(), Some("a.txt"));
    assert_eq!(
        report.take(Ok(Counts { lines: 1, words: 1, bc: 2 })),
        Step::Row(String::from("1  1  2  a.txt"))
    );
    assert_eq!(report.awaited(), Some("gone"));
    assert_eq!(report.take(Err(ReadFailure::NotFound)), Step::Fatal);
    assert!(report.failed);
    assert_eq!(report.awaited(), None);
    assert_eq!(report.closing(), None);
    assert_eq!(report.totals, Counts { lines: 1, words: 1, bc: 2 });
}

#[test]
fn a_report_of_directories_alone_has_zero_totals() {
    let mut report = Report::new(config(&["prog", "d1", "d2"]));
    assert_eq!(
        report.take(Err(ReadFailure::IsDirectory)),
        Step::Skipped(String::from("d1 is a directory."))
    );
    assert_eq!(
        report.take(Err(ReadFailure::IsDirectory)),
        Step::Skipped(String::from("d2 is a directory."))
    );
    assert_eq!(report.closing(), Some(String::from("0  0  0  total")));
}
