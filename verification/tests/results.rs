use imgur_a::collector::{Action, Collector, Event};
use imgur_a::results::{Progress, ResultsFile, Stage};

fn text(s: &str) -> String {
    String::from(s)
}

fn open() -> ResultsFile {
    match ResultsFile::open("out.txt", Ok(())) {
        Ok(file) => file,
        Err(_) => panic!("the file is open"),
    }
}

const DONE: Progress<String> = Progress::Done { ok: true, notice: None };

fn collect(found: &[&str]) -> (String, Collector<String>) {
    let mut file = String::new();
    let mut collector = Collector::new(open());
    for f in found {
        assert_eq!(collector.action, Action::Receive);
        collector = collector.step(Event::Received { found: Some(text(f)) }).0;
        while let Action::Write { text } = &collector.action {
            file.push_str(text);
            let (next, notice) = collector.step(Event::Done { outcome: Ok(()) });
            assert_eq!(notice, None);
            collector = next;
        }
    }
    (file, collector)
}

#[test]
fn file_that_cannot_be_opened() {
    match ResultsFile::open("out.txt", Err(text("permission denied"))) {
        Ok(_) => panic!("the file is not open"),
        Err(notice) => {
            assert_eq!(notice, "Failed to open results file 'out.txt': permission denied")
        }
    }
}

#[test]
fn line_feed_is_added() {
    let mut file = open();
    assert_eq!(file.write("abc"), Progress::Write { text: text("abc") });
    assert_eq!(file.resume(Ok(())), Progress::Write { text: text("\n") });
    assert_eq!(file.resume(Ok(())), DONE);
    assert_eq!(file.stage, Stage::Idle);
}

#[test]
fn line_feed_is_not_added_twice() {
    let mut file = open();
    assert_eq!(file.write("abc\n"), Progress::Write { text: text("abc\n") });
    assert_eq!(file.resume(Ok(())), DONE);
}

#[test]
fn failed_writes() {
    let failed = Progress::Done {
        ok: false,
        notice: Some(text("Failed to write result to results file: disk full")),
    };
    let mut file = open();
    file.write("abc");
    assert_eq!(file.resume(Err(text("disk full"))), failed);
    file.write("abc");
    file.resume(Ok(()));
    assert_eq!(file.resume(Err(text("disk full"))), failed);
}

#[test]
fn closing() {
    let mut file = open();
    assert_eq!(file.close(), Progress::Flush);
    assert_eq!(file.resume(Ok(())), Progress::Shutdown);
    assert_eq!(file.resume(Ok(())), DONE);
}

#[test]
fn failed_closing() {
    let failed = Progress::Done {
        ok: false,
        notice: Some(text("Failed to close results file after being done: disk full")),
    };
    let mut file = open();
    file.close();
    assert_eq!(file.resume(Err(text("disk full"))), failed);
    file.close();
    file.resume(Ok(()));
    assert_eq!(file.resume(Err(text("disk full"))), failed);
}

#[test]
fn lines_of_the_file_are_the_results() {
    let (file, collector) = collect(&["{\"a\":1}", "", "{\"b\":2}"]);
    assert_eq!(file, "{\"a\":1}\n\n{\"b\":2}\n");
    assert_eq!(collector.action, Action::Receive);
    let (file, _) = collect(&["with feed\n", "without"]);
    assert_eq!(file, "with feed\nwithout\n");
}

#[test]
fn collector_closes_the_file() {
    let (_, collector) = collect(&["a"]);
    let (collector, notice) = collector.step(Event::Received { found: None });
    assert_eq!(notice, None);
    assert_eq!(collector.action, Action::Flush);
    let (collector, notice) = collector.step(Event::Done { outcome: Ok(()) });
    assert_eq!(notice, None);
    assert_eq!(collector.action, Action::Shutdown);
    let (collector, notice) = collector.step(Event::Done { outcome: Ok(()) });
    assert_eq!(notice, Some(text("Finished writing results")));
    assert_eq!(collector.action, Action::Stop);
}

#[test]
fn collector_says_why_the_file_could_not_be_closed() {
    let (_, collector) = collect(&[]);
    let (collector, _) = collector.step(Event::Received { found: None });
    let (collector, notice) = collector.step(Event::Done { outcome: Err(text("disk full")) });
    assert_eq!(
        notice,
        Some(text(
            "Failed to close results file after being done: disk full\nFinished writing results"
        ))
    );
    assert_eq!(collector.action, Action::Stop);
}

#[test]
fn collector_stops_when_writing_fails() {
    let (_, collector) = collect(&["a"]);
    let (collector, _) = collector.step(Event::Received { found: Some(text("b")) });
    let (collector, notice) = collector.step(Event::Done { outcome: Err(text("disk full")) });
    assert_eq!(notice, Some(text("Failed to write result to results file: disk full")));
    assert_eq!(collector.action, Action::Stop);
}

#[test]
fn a_failed_line_feed_leaves_the_start_of_the_records() {
    let (mut file, collector) = collect(&["a"]);
    let (collector, _) = collector.step(Event::Received { found: Some(text("b")) });
    assert_eq!(collector.action, Action::Write { text: text("b") });
    assert!("a\nb\n".starts_with(&file));
    file.push_str("b");
    let (collector, _) = collector.step(Event::Done { outcome: Ok(()) });
    assert_eq!(collector.action, Action::Write { text: text("\n") });
    let (collector, _) = collector.step(Event::Done { outcome: Err(text("disk full")) });
    assert_eq!(collector.action, Action::Stop);
    assert!("a\nb\n".starts_with(&file));
    let (collector, notice) = collector.step(Event::Received { found: Some(text("c")) });
    assert_eq!(notice, None);
    assert_eq!(collector.action, Action::Stop);
}
