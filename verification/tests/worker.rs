use imgur_a::album::{Album, AlbumImages, AlbumPattern};
use imgur_a::worker::{
    album_url, budget, classify, Action, Count, Effects, Event, Meaning, Phase, Worker, COOKIES,
    HOME,
};

type Machine = Worker<String>;

fn text(s: &str) -> String {
    String::from(s)
}

fn quiet() -> Effects<String> {
    Effects { notice: None, count: None, report: false, farewell: None }
}

fn note(s: &str) -> Effects<String> {
    Effects { notice: Some(text(s)), count: None, report: false, farewell: None }
}

fn failed(notice: Option<&str>, report: bool) -> Effects<String> {
    Effects { notice: notice.map(String::from), count: Some(Count::Failed), report, farewell: None }
}

fn request(id: &str, referer: &str) -> Action<String> {
    Action::Request { url: album_url(id), referer: text(referer), cookie: text(COOKIES) }
}

fn waiting(using_proxies: bool) -> Machine {
    let worker = Worker::new(7, using_proxies, 3);
    assert_eq!(worker.action(), Action::BuildClient);
    let (worker, effects) = worker.step(Event::ClientBuilt { outcome: Ok(()) });
    assert_eq!(effects, quiet());
    assert_eq!(worker.action(), Action::Receive);
    worker
}

fn requesting(using_proxies: bool) -> Machine {
    let (worker, effects) =
        waiting(using_proxies).step(Event::TaskReceived { task: Some(text("aBcDe")) });
    assert_eq!(effects, quiet());
    assert_eq!(worker.action(), request("aBcDe", HOME));
    worker
}

fn reading(using_proxies: bool, status: u16, worked: usize) -> Machine {
    let (worker, effects) = requesting(using_proxies).step(Event::Answered { status, worked });
    assert_eq!(effects, quiet());
    assert_eq!(worker.action(), Action::ReadBody);
    worker
}

fn page(data: &str) -> String {
    format!("<script>image: {},\n</script>", data)
}

fn remaining(worker: &Machine) -> u64 {
    match &worker.phase {
        Phase::Requesting { job } => job.remaining,
        Phase::Pausing { job, .. } => job.remaining,
        _ => panic!("no task in hand"),
    }
}

fn empty_album() -> Album {
    Album { title: None, description: None, album_images: None }
}

#[test]
fn addresses_of_albums() {
    assert_eq!(album_url("aBcDe"), "https://imgur.com/a/aBcDe");
    assert_eq!(HOME, "https://imgur.com/");
}

#[test]
fn number_of_tries() {
    assert_eq!(budget(true), 10);
    assert_eq!(budget(false), 4294967296);
}

#[test]
fn meaning_of_status_codes() {
    assert_eq!(classify(200), Meaning::Page);
    assert_eq!(classify(299), Meaning::Page);
    assert_eq!(classify(300), Meaning::Unexpected);
    assert_eq!(classify(199), Meaning::Unexpected);
    assert_eq!(classify(302), Meaning::Unexpected);
    assert_eq!(classify(403), Meaning::Forbidden);
    assert_eq!(classify(404), Meaning::NotFound);
    assert_eq!(classify(429), Meaning::RateLimited);
    assert_eq!(classify(499), Meaning::Unexpected);
    assert_eq!(classify(500), Meaning::ServerError);
    assert_eq!(classify(599), Meaning::ServerError);
    assert_eq!(classify(600), Meaning::Unexpected);
}

#[test]
fn meaning_agrees_with_reqwest() {
    for status in 100..1000u16 {
        let code = reqwest::StatusCode::from_u16(status).unwrap();
        assert_eq!(classify(status) == Meaning::Page, code.is_success());
        assert_eq!(classify(status) == Meaning::ServerError, code.is_server_error());
        assert_eq!(
            classify(status) == Meaning::RateLimited,
            code == reqwest::StatusCode::TOO_MANY_REQUESTS
        );
        assert_eq!(
            classify(status) == Meaning::Forbidden,
            code == reqwest::StatusCode::FORBIDDEN
        );
        assert_eq!(
            classify(status) == Meaning::NotFound,
            code == reqwest::StatusCode::NOT_FOUND
        );
    }
}

#[test]
fn worker_without_client_stops() {
    let (worker, effects) =
        Worker::new(7, true, 3).step(Event::ClientBuilt { outcome: Err(text("no tls")) });
    assert_eq!(effects, note("Failed to build http client: no tls"));
    assert_eq!(worker.action(), Action::Pause { millis: 500 });
    let (worker, effects) = worker.step(Event::Paused);
    assert_eq!(effects, quiet());
    assert_eq!(worker.action(), Action::Stop);
}

#[test]
fn closed_task_channel_ends_the_worker() {
    let (worker, effects) = waiting(true).step(Event::TaskReceived { task: None });
    assert_eq!(effects, note("Worker #7 is done."));
    assert_eq!(worker.action(), Action::Stop);
    let (worker, effects) = worker.step(Event::TaskReceived { task: Some(text("late")) });
    assert_eq!(effects, quiet());
    assert_eq!(worker.action(), Action::Stop);
}

#[test]
fn album_worth_keeping_is_delivered() {
    let pattern = AlbumPattern::new().unwrap();
    let data = "{\"album_images\":{\"count\":1}}";
    let worker = reading(true, 200, 4);
    let (worker, effects) = worker.receive_body(&pattern, Ok(page(data)));
    assert_eq!(effects, quiet());
    assert_eq!(worker.action(), Action::ParseAlbum { data: text(data) });
    let album = Album { album_images: Some(AlbumImages { count: 1 }), ..empty_album() };
    let (worker, effects) = worker.receive_album(Ok(album));
    assert_eq!(
        effects,
        Effects { notice: None, count: Some(Count::Found), report: false, farewell: None }
    );
    assert_eq!(worker.action(), Action::Deliver { data: text(data) });
    let (worker, effects) = worker.step(Event::Delivered { outcome: Ok(()) });
    assert_eq!(effects, quiet());
    assert_eq!(worker.action(), Action::Receive);
    let (worker, _) = worker.step(Event::TaskReceived { task: Some(text("next1")) });
    assert_eq!(worker.action(), request("next1", "https://imgur.com/a/aBcDe"));
}

#[test]
fn every_third_response_brings_a_report() {
    let pattern = AlbumPattern::new().unwrap();
    let (worker, _) = reading(true, 200, 6).receive_body(&pattern, Ok(page("{}")));
    let album = Album { title: Some(text("t")), ..empty_album() };
    let (worker, effects) = worker.receive_album(Ok(album));
    assert!(!effects.report);
    let (_, effects) = worker.step(Event::Delivered { outcome: Ok(()) });
    assert_eq!(effects, Effects { notice: None, count: None, report: true, farewell: None });
    let (_, effects) = requesting(true).step(Event::Answered { status: 404, worked: 3 });
    assert_eq!(effects, failed(None, true));
    let (_, effects) = requesting(true).step(Event::Answered { status: 404, worked: 4 });
    assert_eq!(effects, failed(None, false));
}

#[test]
fn closed_result_channel_ends_the_worker() {
    let pattern = AlbumPattern::new().unwrap();
    let (worker, _) = reading(true, 200, 3).receive_body(&pattern, Ok(page("{}")));
    let album = Album { description: Some(text("d")), ..empty_album() };
    let (worker, _) = worker.receive_album(Ok(album));
    let (worker, effects) = worker.step(Event::Delivered { outcome: Err(text("channel closed")) });
    assert_eq!(effects, note("Failed to send result channel closed"));
    assert_eq!(worker.action(), Action::Stop);
}

#[test]
fn empty_album_counts_as_failed() {
    let pattern = AlbumPattern::new().unwrap();
    let (worker, _) = reading(false, 200, 1).receive_body(&pattern, Ok(page("{}")));
    let (worker, effects) = worker.receive_album(Ok(empty_album()));
    assert_eq!(effects, failed(None, false));
    assert_eq!(worker.action(), Action::Receive);
    assert_eq!(worker.referer, "https://imgur.com/a/aBcDe");
}

#[test]
fn album_data_that_cannot_be_parsed() {
    let pattern = AlbumPattern::new().unwrap();
    let (worker, _) = reading(true, 200, 1).receive_body(&pattern, Ok(page("{x}")));
    let (worker, effects) = worker.receive_album(Err(text("key must be a string")));
    assert_eq!(
        effects,
        failed(
            Some("Failed to parse response json for https://imgur.com/a/aBcDe: key must be a string. Json: {x}"),
            false
        )
    );
    assert_eq!(worker.action(), Action::Receive);
}

#[test]
fn page_without_album_data() {
    let pattern = AlbumPattern::new().unwrap();
    let (worker, effects) = reading(true, 200, 1).receive_body(&pattern, Ok(text("<html>")));
    assert_eq!(
        effects,
        failed(
            Some("Failed to find album data in response for https://imgur.com/a/aBcDe:\n<html>"),
            false
        )
    );
    assert_eq!(worker.action(), Action::Receive);
}

#[test]
fn data_handed_in_decides() {
    let (worker, effects) = reading(true, 200, 1)
        .step(Event::BodyRead { body: Ok(text("any page")), data: Some(text("{\"a\":1}")) });
    assert_eq!(effects, quiet());
    assert_eq!(worker.action(), Action::ParseAlbum { data: text("{\"a\":1}") });
}

#[test]
fn page_that_cannot_be_read() {
    let pattern = AlbumPattern::new().unwrap();
    let (worker, effects) = reading(true, 200, 1).receive_body(&pattern, Err(text("reset")));
    assert_eq!(
        effects,
        failed(
            Some("Failed to read response body for https://imgur.com/a/aBcDe: reset"),
            false
        )
    );
    assert_eq!(worker.action(), Action::Receive);
}

#[test]
fn missing_album_counts_as_failed() {
    let (worker, effects) = requesting(true).step(Event::Answered { status: 404, worked: 1 });
    assert_eq!(effects, failed(None, false));
    assert_eq!(worker.action(), Action::Receive);
}

#[test]
fn server_error_is_tried_again() {
    let pattern = AlbumPattern::new().unwrap();
    let body = "x".repeat(150);
    let (worker, effects) = reading(true, 502, 1).receive_body(&pattern, Ok(body));
    assert_eq!(
        effects,
        note(&format!(
            "Failed to request 'https://imgur.com/a/aBcDe', got status 502, retrying in 30s (body: {})",
            "x".repeat(100)
        ))
    );
    assert_eq!(worker.action(), Action::Pause { millis: 30000 });
    assert_eq!(remaining(&worker), 9);
    let (worker, effects) = worker.step(Event::Paused);
    assert_eq!(effects, quiet());
    assert_eq!(worker.action(), request("aBcDe", HOME));
    assert_eq!(remaining(&worker), 8);
}

#[test]
fn server_error_without_body() {
    let pattern = AlbumPattern::new().unwrap();
    let (_, effects) = reading(true, 500, 1).receive_body(&pattern, Err(text("reset")));
    assert_eq!(
        effects,
        note("Failed to request 'https://imgur.com/a/aBcDe', got status 500, retrying in 30s (body: ERR reset)")
    );
}

#[test]
fn bodies_that_cannot_be_shown() {
    let split_character = Ok(format!("{}ä{}", "x".repeat(99), "x".repeat(20)));
    assert!(!reading(true, 500, 1).accepts_body(&split_character));
    assert!(reading(true, 200, 1).accepts_body(&split_character));
    assert!(reading(true, 403, 1).accepts_body(&split_character));
    assert!(reading(true, 500, 1).accepts_body(&Ok(format!("{}ä{}", "x".repeat(98), "y"))));
    let split_error = Err(format!("{}ä{}", "x".repeat(95), "x".repeat(20)));
    assert!(!reading(true, 500, 1).accepts_body(&split_error));
}

#[test]
fn rate_limited_worker_behind_a_proxy_gives_its_task_back() {
    let (worker, effects) = requesting(true).step(Event::Answered { status: 429, worked: 3 });
    assert_eq!(effects, note("Worker #7 got 429'd"));
    assert_eq!(worker.action(), Action::Requeue { task: text("aBcDe") });
    let (worker, effects) = worker.step(Event::Requeued { outcome: Ok(()) });
    assert_eq!(
        effects,
        Effects {
            notice: None,
            count: Some(Count::WorkerFailed),
            report: false,
            farewell: Some(text("Worker #7 is done. (has failed)")),
        }
    );
    assert_eq!(worker.action(), Action::Stop);
}

#[test]
fn rate_limited_worker_without_proxy_waits() {
    let (worker, effects) = requesting(false).step(Event::Answered { status: 429, worked: 3 });
    assert_eq!(effects, note("Worker #7 got 429'd, sleeping 1min before retrying"));
    assert_eq!(worker.action(), Action::Pause { millis: 60000 });
    let (worker, _) = worker.step(Event::Paused);
    assert_eq!(worker.action(), request("aBcDe", HOME));
}

#[test]
fn closed_requeue_channel() {
    let (worker, _) = requesting(true).step(Event::Answered { status: 429, worked: 3 });
    let (worker, effects) = worker.step(Event::Requeued { outcome: Err(text("channel closed")) });
    assert_eq!(effects, note("Failed to requeue result channel closed"));
    assert_eq!(worker.action(), Action::Stop);
}

#[test]
fn over_capacity_costs_no_try() {
    let pattern = AlbumPattern::new().unwrap();
    let body = "<p>Imgur is temporarily over capacity. Please try again later.</p>";
    let before = remaining(&requesting(true));
    let (worker, effects) = reading(true, 403, 3).receive_body(&pattern, Ok(text(body)));
    assert_eq!(effects, note("Worker #7: got 403 over-capacity, retrying in 2s"));
    assert_eq!(worker.action(), Action::Pause { millis: 1000 });
    let (worker, _) = worker.step(Event::Paused);
    assert_eq!(remaining(&worker), before);
}

#[test]
fn other_forbidden_pages_count_as_failed() {
    let pattern = AlbumPattern::new().unwrap();
    let (worker, effects) = reading(true, 403, 3).receive_body(&pattern, Ok(text("go away")));
    assert_eq!(effects, failed(None, true));
    assert_eq!(worker.action(), Action::Receive);
}

#[test]
fn forbidden_page_that_cannot_be_read() {
    let pattern = AlbumPattern::new().unwrap();
    let (worker, effects) = reading(true, 403, 3).receive_body(&pattern, Err(text("reset")));
    assert_eq!(
        effects,
        note("Failed to request 'https://imgur.com/a/aBcDe', got status 403 and couldn't read body, retrying in 30s")
    );
    assert_eq!(worker.action(), Action::Pause { millis: 30000 });
}

#[test]
fn unexpected_status_is_tried_again() {
    let (worker, effects) = requesting(true).step(Event::Answered { status: 302, worked: 3 });
    assert_eq!(
        effects,
        note("Failed to request 'https://imgur.com/a/aBcDe', got status 302, retrying in 30s")
    );
    assert_eq!(worker.action(), Action::Pause { millis: 30000 });
}

#[test]
fn ten_failed_requests_release_the_task() {
    let mut worker = requesting(true);
    let mut requests = 0;
    while worker.action() == request("aBcDe", HOME) {
        requests += 1;
        let (paused, effects) = worker.step(Event::RequestFailed { error: text("timed out") });
        assert_eq!(
            effects,
            note("Failed to request 'https://imgur.com/a/aBcDe', retrying in 1s: timed out")
        );
        assert_eq!(paused.action(), Action::Pause { millis: 1000 });
        worker = paused.step(Event::Paused).0;
    }
    assert_eq!(requests, 10);
    assert_eq!(worker.action(), Action::Requeue { task: text("aBcDe") });
}

#[test]
fn worker_without_proxy_keeps_trying() {
    let mut worker = requesting(false);
    for _ in 0..100 {
        worker = worker.step(Event::RequestFailed { error: text("timed out") }).0;
        worker = worker.step(Event::Paused).0;
        assert_eq!(worker.action(), request("aBcDe", HOME));
    }
    assert_eq!(remaining(&worker), 4294967296 - 101);
}

#[test]
fn events_that_answer_nothing_change_nothing() {
    let (worker, effects) = requesting(true).step(Event::Paused);
    assert_eq!(effects, quiet());
    assert_eq!(worker, requesting(true));
    let (worker, effects) = waiting(true).step(Event::Delivered { outcome: Ok(()) });
    assert_eq!(effects, quiet());
    assert_eq!(worker, waiting(true));
}

#[test]
fn every_task_is_accounted_for() {
    let statuses = [404, 500, 404, 302, 404, 429];
    let mut worker = waiting(true);
    let mut taken = 0;
    let mut settled = 0;
    let mut returned = 0;
    let mut responses = 0;
    loop {
        let event = match worker.action() {
            Action::Receive => {
                taken += 1;
                Event::TaskReceived { task: Some(format!("id{}", taken)) }
            }
            Action::Request { url, .. } => {
                assert_eq!(url, format!("https://imgur.com/a/id{}", taken));
                responses += 1;
                Event::Answered { status: statuses[responses - 1], worked: responses }
            }
            Action::ReadBody => Event::BodyRead { body: Ok(text("down")), data: None },
            Action::Pause { .. } => Event::Paused,
            Action::Requeue { task } => {
                assert_eq!(task, format!("id{}", taken));
                Event::Requeued { outcome: Ok(()) }
            }
            Action::Stop => break,
            other => panic!("unexpected: {:?}", other),
        };
        let (next, effects) = worker.step(event);
        worker = next;
        match effects.count {
            Some(Count::Failed) => settled += 1,
            Some(Count::WorkerFailed) => returned += 1,
            Some(Count::Found) => panic!("nothing was found"),
            None => {}
        }
    }
    assert_eq!((taken, settled, returned, responses), (4, 3, 1, 6));
}
