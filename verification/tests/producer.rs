use imgur_a::producer::{Action, Effects, Event, Producer};

type Machine = Producer<String>;

fn text(s: &str) -> String {
    String::from(s)
}

fn quiet() -> Effects<String> {
    Effects { notice: None, close: false, farewell: None }
}

fn closing(s: &str) -> Effects<String> {
    Effects { notice: Some(text(s)), close: true, farewell: None }
}

fn draining(concurrent: usize) -> Machine {
    let producer = Producer::new(text("ids.txt"), concurrent);
    assert_eq!(producer.action(), Action::OpenInput { path: text("ids.txt") });
    let (producer, effects) = producer.step(Event::Opened { outcome: Ok(()) });
    assert_eq!(effects, quiet());
    assert_eq!(producer.action(), Action::TakeReturned);
    producer
}

fn none_returned(producer: Machine) -> Machine {
    let (producer, effects) = producer.step(Event::Returned { task: None });
    assert_eq!(effects, quiet());
    assert_eq!(producer.action(), Action::ReadLine);
    producer
}

fn send_line(producer: Machine, line: &str) -> Machine {
    let (producer, effects) = producer.step(Event::LineRead { line: Ok(Some(text(line))) });
    assert_eq!(effects, quiet());
    assert_eq!(producer.action(), Action::Send { task: text(line) });
    let event = Event::Sent { outcome: Ok(()) };
    assert!(producer.accepts(&event));
    let (producer, effects) = producer.step(event);
    assert_eq!(effects, quiet());
    producer
}

fn resend(producer: Machine, task: &str) -> Machine {
    let (producer, effects) = producer.step(Event::Returned { task: Some(text(task)) });
    assert_eq!(effects, quiet());
    assert_eq!(producer.action(), Action::Send { task: text(task) });
    let (producer, effects) = producer.step(Event::Sent { outcome: Ok(()) });
    assert_eq!(effects, quiet());
    assert_eq!(producer.action(), Action::TakeReturned);
    producer
}

#[test]
fn pause_after_as_many_tasks_as_a_second_allows() {
    let mut producer = draining(3);
    for line in ["one", "two"] {
        producer = send_line(none_returned(producer), line);
        assert_eq!(producer.action(), Action::TakeReturned);
    }
    producer = send_line(none_returned(producer), "three");
    assert_eq!(producer.action(), Action::Pause { millis: 1000 });
    let (producer, effects) = producer.step(Event::Paused);
    assert_eq!(effects, quiet());
    assert_eq!(producer.action(), Action::TakeReturned);
    assert_eq!(producer.dispatched, 0);
}

#[test]
fn pauses_match_tasks() {
    let mut producer = draining(4);
    let mut sent = 0;
    let mut pauses = 0;
    let mut returned = 0;
    for i in 0..50 {
        if i % 7 == 0 {
            producer = resend(producer, "returned");
            producer = resend(producer, "returned too");
            sent += 2;
            returned += 2;
        }
        producer = send_line(none_returned(producer), "id");
        sent += 1;
        while producer.action() == (Action::Pause { millis: 1000 }) {
            pauses += 1;
            producer = producer.step(Event::Paused).0;
        }
        assert!(producer.dispatched < 4);
        assert_eq!(sent, 4 * pauses + producer.dispatched);
        assert!(sent < 4 * (pauses + 1) + returned);
    }
}

#[test]
fn returned_tasks_are_paused_for_after_the_next_id() {
    let mut producer = draining(2);
    for _ in 0..5 {
        producer = resend(producer, "again");
    }
    assert_eq!(producer.dispatched, 5);
    producer = send_line(none_returned(producer), "id");
    for _ in 0..3 {
        assert_eq!(producer.action(), Action::Pause { millis: 1000 });
        producer = producer.step(Event::Paused).0;
    }
    assert_eq!(producer.action(), Action::TakeReturned);
    assert_eq!(producer.dispatched, 0);
}

#[test]
fn end_of_the_input() {
    let (producer, effects) =
        none_returned(draining(3)).step(Event::LineRead { line: Ok(None) });
    assert_eq!(effects, closing("Producer is done."));
    assert_eq!(producer.action(), Action::Finish);
    let (producer, effects) = producer.step(Event::Returned { task: Some(text("late")) });
    assert_eq!(effects, quiet());
    assert_eq!(producer.action(), Action::Finish);
}

#[test]
fn input_that_cannot_be_opened() {
    let (producer, effects) = Producer::new(text("ids.txt"), 3)
        .step(Event::Opened { outcome: Err(text("no such file")) });
    assert_eq!(
        effects,
        Effects {
            notice: Some(text("Failed to open file 'ids.txt': no such file")),
            close: true,
            farewell: Some(text("Producer is done.")),
        }
    );
    assert_eq!(producer.action(), Action::Finish);
}

#[test]
fn input_that_cannot_be_read_closes_the_channel_and_goes_on() {
    let (producer, effects) =
        none_returned(draining(3)).step(Event::LineRead { line: Err(text("bad utf-8")) });
    assert_eq!(effects, closing("Failed to read line from file 'ids.txt': bad utf-8"));
    assert_eq!(producer.action(), Action::TakeReturned);
}

#[test]
fn closed_task_channel_ends_the_producer() {
    let (producer, _) =
        none_returned(draining(3)).step(Event::LineRead { line: Ok(Some(text("id"))) });
    let (producer, effects) = producer.step(Event::Sent { outcome: Err(text("closed")) });
    assert_eq!(effects, closing("Failed to send task closed"));
    assert_eq!(producer.action(), Action::Finish);
    let (producer, _) = draining(3).step(Event::Returned { task: Some(text("id")) });
    let (producer, effects) = producer.step(Event::Sent { outcome: Err(text("closed")) });
    assert_eq!(effects, closing("Failed to send task closed"));
    assert_eq!(producer.action(), Action::Finish);
}

#[test]
fn uncountable_tasks_are_not_accepted() {
    let (mut producer, _) = draining(3).step(Event::Returned { task: Some(text("id")) });
    producer.dispatched = usize::MAX;
    assert!(!producer.accepts(&Event::Sent { outcome: Ok(()) }));
    assert!(producer.accepts(&Event::Sent { outcome: Err(text("closed")) }));
    assert!(producer.accepts(&Event::Paused));
}

#[test]
fn an_empty_line_is_a_task() {
    let producer = send_line(none_returned(draining(3)), "");
    assert_eq!(producer.dispatched, 1);
}

#[test]
fn tasks_go_out_in_the_order_in_which_they_come() {
    let mut producer = draining(100);
    let mut returned = vec!["r2", "r1"];
    let mut ids = vec!["c", "b", "a"];
    let mut sent: Vec<String> = Vec::new();
    loop {
        let event = match producer.action() {
            Action::TakeReturned => Event::Returned { task: returned.pop().map(String::from) },
            Action::ReadLine => Event::LineRead { line: Ok(ids.pop().map(String::from)) },
            Action::Send { task } => {
                if task == "a" {
                    returned.push("r3");
                }
                sent.push(task);
                Event::Sent { outcome: Ok(()) }
            }
            Action::Finish => break,
            other => panic!("unexpected: {:?}", other),
        };
        producer = producer.step(event).0;
    }
    assert_eq!(sent, vec!["r1", "r2", "a", "r3", "b", "c"]);
}
