//! A worker: it takes one task after the other and finds out whether the album exists.
//!
//! The worker is a state machine. [`Worker::action`] says what is to be done next, and
//! [`Worker::step`] takes what came of it. The types are generic in the kind of text: a running
//! worker holds a `String` where its view holds the characters.

use vstd::prelude::*;

use crate::album::{album_data, Album, AlbumPattern};
use crate::messages::{
    album_missing, album_missing_text, album_parse_failed, album_parse_failed_text,
    body_read_failed, body_read_failed_text, client_failed, client_failed_text, forbidden_unread,
    forbidden_unread_text, over_capacity, over_capacity_text, rate_limited, rate_limited_text,
    rate_limited_waiting, rate_limited_waiting_text, request_failed, request_failed_text,
    requeue_failed, requeue_failed_text, result_send_failed, result_send_failed_text,
    server_error, server_error_text, unexpected_status, unexpected_status_text, worker_done,
    worker_done_text, worker_failed, worker_failed_text,
};
use crate::text::{
    can_clip, clip, clippable, clipped, contains, contains_text, done_of, outcome_of, text_of,
};

verus! {

/// The page that the first request of a worker comes from.
pub const HOME: &'static str = "https://imgur.com/";

/// What the address of an album begins with; its id follows.
pub const ALBUM_BASE: &'static str = "https://imgur.com/a/";

/// The cookies that every request carries.
pub const COOKIES: &'static str =
    "retina=0; over18=1; m_section=hot; m_sort=time; is_emerald=0; is_authed=0; frontpagebeta=0; postpagebeta=0;";

/// What a 403 page says when it has nothing to do with the album.
pub const OVER_CAPACITY: &'static str = "Imgur is temporarily over capacity";

/// What stands in for the body of a failed server's answer, before the reason it is missing.
pub const NO_BODY: &'static str = "ERR ";

/// How often a worker behind a proxy tries a task before it gives it back.
pub const PROXY_ATTEMPTS: u64 = 10;

/// How often a worker without a proxy tries a task: more often than any run lasts.
pub const DIRECT_ATTEMPTS: u64 = 0x1_0000_0000;

/// How many bytes of a failed server's answer are shown.
pub const PREVIEW_BYTES: usize = 100;

/// The pause after a client could not be built, in milliseconds.
pub const CLIENT_PAUSE: u64 = 500;

/// The pause after a request without response and after an over-capacity page, in milliseconds.
pub const SHORT_PAUSE: u64 = 1000;

/// The pause after an answer that says nothing of the album, in milliseconds.
pub const RETRY_PAUSE: u64 = 30000;

/// The pause after rate limiting, in milliseconds.
pub const RATE_PAUSE: u64 = 60000;

/// What the status of a response means for the task.
#[derive(Debug, PartialEq, Eq, Structural, Clone, Copy)]
pub enum Meaning {
    /// The page of an album.
    Page,
    /// The server failed.
    ServerError,
    /// Too many requests.
    RateLimited,
    /// The album is not to be seen, or the service is over capacity.
    Forbidden,
    /// There is no such album.
    NotFound,
    /// Anything else.
    Unexpected,
}

/// The meaning of a status code.
pub open spec fn meaning_of(status: u16) -> Meaning {
    if 200 <= status < 300 {
        Meaning::Page
    } else if 500 <= status < 600 {
        Meaning::ServerError
    } else if status == 429 {
        Meaning::RateLimited
    } else if status == 403 {
        Meaning::Forbidden
    } else if status == 404 {
        Meaning::NotFound
    } else {
        Meaning::Unexpected
    }
}

/// Tells what a status code means.
pub fn classify(status: u16) -> (r: Meaning)
    ensures
        r == meaning_of(status),
{
    if 200 <= status && status < 300 {
        Meaning::Page
    } else if 500 <= status && status < 600 {
        Meaning::ServerError
    } else if status == 429 {
        Meaning::RateLimited
    } else if status == 403 {
        Meaning::Forbidden
    } else if status == 404 {
        Meaning::NotFound
    } else {
        Meaning::Unexpected
    }
}

/// The address of the album with the id `task`.
pub open spec fn url_text(task: Seq<char>) -> Seq<char> {
    ALBUM_BASE@ + task
}

/// The address of the album with the id `task`.
pub fn album_url(task: &str) -> (r: String)
    ensures
        r@ == url_text(task@),
{
    ALBUM_BASE.to_owned().concat(task)
}

/// How often a task is tried.
pub open spec fn budget_of(using_proxies: bool) -> u64 {
    if using_proxies {
        PROXY_ATTEMPTS
    } else {
        DIRECT_ATTEMPTS
    }
}

/// How often a task is tried.
pub fn budget(using_proxies: bool) -> (r: u64)
    ensures
        r == budget_of(using_proxies),
{
    if using_proxies {
        PROXY_ATTEMPTS
    } else {
        DIRECT_ATTEMPTS
    }
}

/// The text that stands for a failed server's answer.
pub open spec fn answer_text(body: Result<Seq<char>, Seq<char>>) -> Seq<char> {
    match body {
        Ok(text) => text,
        Err(error) => NO_BODY@ + error,
    }
}

/// The text that stands for a failed server's answer.
fn answer(body: &Result<String, String>) -> (r: String)
    ensures
        r@ == answer_text(outcome_of(*body)),
{
    match body {
        Ok(text) => text.clone(),
        Err(error) => NO_BODY.to_owned().concat(error.as_str()),
    }
}

/// A task in a worker's hands.
#[derive(Debug, PartialEq)]
pub struct Job<S> {
    /// The id of the album.
    pub task: S,
    /// The address of the album.
    pub url: S,
    /// How often the task may still be tried.
    pub remaining: u64,
}

/// What a worker is at.
#[derive(Debug, PartialEq)]
pub enum Phase<S> {
    /// It has no client yet.
    Starting,
    /// Its client could not be built.
    Abandoning,
    /// It has no task.
    Waiting,
    /// It asks for the album's page.
    Requesting { job: Job<S> },
    /// It reads the body of a response, which was the run's `worked`th.
    Reading { job: Job<S>, status: u16, worked: usize },
    /// It looks into the album data of a page.
    Parsing { job: Job<S>, data: S, worked: usize },
    /// It hands a result on.
    Delivering { job: Job<S>, data: S, worked: usize },
    /// It waits before it tries again.
    Pausing { job: Job<S>, millis: u64 },
    /// It gives the task back.
    Requeueing { job: Job<S> },
    /// It has come to its end.
    Stopped,
}

/// A worker.
#[derive(Debug, PartialEq)]
pub struct Worker<S> {
    /// Its number, counted from one.
    pub number: u64,
    /// Whether its requests go through a proxy.
    pub using_proxies: bool,
    /// A report is due after this many responses.
    pub concurrent: usize,
    /// The page that its next request comes from.
    pub referer: S,
    /// What it is at.
    pub phase: Phase<S>,
}

/// What is to be done for a worker.
#[derive(Debug, PartialEq)]
pub enum Action<S> {
    /// Build its client; answered by [`Event::ClientBuilt`].
    BuildClient,
    /// Take a task from the channel; answered by [`Event::TaskReceived`].
    Receive,
    /// Send a request; answered by [`Event::RequestFailed`] or [`Event::Answered`].
    Request { url: S, referer: S, cookie: S },
    /// Read the body of the response; answered by [`Event::BodyRead`].
    ReadBody,
    /// Parse album data; answered by [`Event::AlbumParsed`].
    ParseAlbum { data: S },
    /// Send a result into the channel; answered by [`Event::Delivered`].
    Deliver { data: S },
    /// Wait; answered by [`Event::Paused`].
    Pause { millis: u64 },
    /// Send the task into the requeue channel; answered by [`Event::Requeued`].
    Requeue { task: S },
    /// Nothing more.
    Stop,
}

/// What came of an action.
pub enum Event<S> {
    ClientBuilt { outcome: Result<(), S> },
    /// No task means that the channel is closed.
    TaskReceived { task: Option<S> },
    RequestFailed { error: S },
    /// A response came, the run's `worked`th.
    Answered { status: u16, worked: usize },
    /// The body of the response, and the album data in it.
    BodyRead { body: Result<S, S>, data: Option<S> },
    /// Whether the album is worth keeping, or why the data could not be parsed.
    AlbumParsed { counts: Result<bool, S> },
    Delivered { outcome: Result<(), S> },
    Paused,
    Requeued { outcome: Result<(), S> },
}

/// What is counted over all workers.
#[derive(Debug, PartialEq, Eq, Structural, Clone, Copy)]
pub enum Count {
    /// A task whose album is worth keeping.
    Found,
    /// A task without such an album.
    Failed,
    /// A worker that gave its task back.
    WorkerFailed,
}

/// What a step does besides changing the worker, in this order.
#[derive(Debug, PartialEq)]
pub struct Effects<S> {
    /// A line to print.
    pub notice: Option<S>,
    /// A count to raise.
    pub count: Option<Count>,
    /// Whether to print a report.
    pub report: bool,
    /// A last line to print.
    pub farewell: Option<S>,
}

impl View for Job<String> {
    type V = Job<Seq<char>>;

    open spec fn view(&self) -> Job<Seq<char>> {
        Job { task: self.task@, url: self.url@, remaining: self.remaining }
    }
}

impl View for Phase<String> {
    type V = Phase<Seq<char>>;

    open spec fn view(&self) -> Phase<Seq<char>> {
        match *self {
            Phase::Starting => Phase::Starting,
            Phase::Abandoning => Phase::Abandoning,
            Phase::Waiting => Phase::Waiting,
            Phase::Requesting { job } => Phase::Requesting { job: job@ },
            Phase::Reading { job, status, worked } => Phase::Reading { job: job@, status, worked },
            Phase::Parsing { job, data, worked } => Phase::Parsing {
                job: job@,
                data: data@,
                worked,
            },
            Phase::Delivering { job, data, worked } => Phase::Delivering {
                job: job@,
                data: data@,
                worked,
            },
            Phase::Pausing { job, millis } => Phase::Pausing { job: job@, millis },
            Phase::Requeueing { job } => Phase::Requeueing { job: job@ },
            Phase::Stopped => Phase::Stopped,
        }
    }
}

impl View for Worker<String> {
    type V = Worker<Seq<char>>;

    open spec fn view(&self) -> Worker<Seq<char>> {
        Worker {
            number: self.number,
            using_proxies: self.using_proxies,
            concurrent: self.concurrent,
            referer: self.referer@,
            phase: self.phase@,
        }
    }
}

impl View for Action<String> {
    type V = Action<Seq<char>>;

    open spec fn view(&self) -> Action<Seq<char>> {
        match *self {
            Action::BuildClient => Action::BuildClient,
            Action::Receive => Action::Receive,
            Action::Request { url, referer, cookie } => Action::Request {
                url: url@,
                referer: referer@,
                cookie: cookie@,
            },
            Action::ReadBody => Action::ReadBody,
            Action::ParseAlbum { data } => Action::ParseAlbum { data: data@ },
            Action::Deliver { data } => Action::Deliver { data: data@ },
            Action::Pause { millis } => Action::Pause { millis },
            Action::Requeue { task } => Action::Requeue { task: task@ },
            Action::Stop => Action::Stop,
        }
    }
}

impl View for Event<String> {
    type V = Event<Seq<char>>;

    open spec fn view(&self) -> Event<Seq<char>> {
        match *self {
            Event::ClientBuilt { outcome } => Event::ClientBuilt { outcome: done_of(outcome) },
            Event::TaskReceived { task } => Event::TaskReceived { task: text_of(task) },
            Event::RequestFailed { error } => Event::RequestFailed { error: error@ },
            Event::Answered { status, worked } => Event::Answered { status, worked },
            Event::BodyRead { body, data } => Event::BodyRead {
                body: outcome_of(body),
                data: text_of(data),
            },
            Event::AlbumParsed { counts } => Event::AlbumParsed {
                counts: match counts {
                    Ok(counts) => Ok(counts),
                    Err(error) => Err(error@),
                },
            },
            Event::Delivered { outcome } => Event::Delivered { outcome: done_of(outcome) },
            Event::Paused => Event::Paused,
            Event::Requeued { outcome } => Event::Requeued { outcome: done_of(outcome) },
        }
    }
}

impl View for Effects<String> {
    type V = Effects<Seq<char>>;

    open spec fn view(&self) -> Effects<Seq<char>> {
        Effects {
            notice: text_of(self.notice),
            count: self.count,
            report: self.report,
            farewell: text_of(self.farewell),
        }
    }
}

impl<S> Phase<S> {
    /// The task in hand.
    pub open spec fn job(self) -> Option<Job<S>> {
        match self {
            Phase::Requesting { job } => Some(job),
            Phase::Reading { job, .. } => Some(job),
            Phase::Parsing { job, .. } => Some(job),
            Phase::Delivering { job, .. } => Some(job),
            Phase::Pausing { job, .. } => Some(job),
            Phase::Requeueing { job } => Some(job),
            _ => None,
        }
    }

    /// Whether a try of the task is under way.
    pub open spec fn trying(self) -> bool {
        ||| self is Requesting
        ||| self is Reading
        ||| self is Parsing
        ||| self is Delivering
    }
}

impl Effects<Seq<char>> {
    /// No effect at all.
    pub open spec fn none() -> Self {
        Effects { notice: None, count: None, report: false, farewell: None }
    }

    /// A line to print, and no more.
    pub open spec fn note(text: Seq<char>) -> Self {
        Effects { notice: Some(text), count: None, report: false, farewell: None }
    }
}

/// What a worker does and how it changes.
impl Worker<Seq<char>> {
    /// Reports have an interval, and a task is never tried more often than it may be.
    pub open spec fn wf(self) -> bool {
        &&& self.concurrent > 0
        &&& self.phase.job() matches Some(job) ==> {
            &&& job.remaining <= budget_of(self.using_proxies)
            &&& self.phase.trying() ==> job.remaining < budget_of(self.using_proxies)
        }
    }

    /// A worker before it does anything.
    pub open spec fn initial(number: u64, using_proxies: bool, concurrent: usize) -> Self {
        Worker { number, using_proxies, concurrent, referer: HOME@, phase: Phase::Starting }
    }

    /// The same worker at something else.
    pub open spec fn at(self, phase: Phase<Seq<char>>) -> Self {
        Worker { phase, ..self }
    }

    /// What is to be done for the worker now.
    pub open spec fn pending(self) -> Action<Seq<char>> {
        match self.phase {
            Phase::Starting => Action::BuildClient,
            Phase::Abandoning => Action::Pause { millis: CLIENT_PAUSE },
            Phase::Waiting => Action::Receive,
            Phase::Requesting { job } => Action::Request {
                url: job.url,
                referer: self.referer,
                cookie: COOKIES@,
            },
            Phase::Reading { .. } => Action::ReadBody,
            Phase::Parsing { data, .. } => Action::ParseAlbum { data },
            Phase::Delivering { data, .. } => Action::Deliver { data },
            Phase::Pausing { millis, .. } => Action::Pause { millis },
            Phase::Requeueing { job } => Action::Requeue { task: job.task },
            Phase::Stopped => Action::Stop,
        }
    }

    /// Whether a report is due after the run's `worked`th response.
    pub open spec fn report_due(self, worked: usize) -> bool {
        worked as int % self.concurrent as int == 0
    }

    /// The worker after a task is dealt with: the album's page is where its next request comes
    /// from.
    pub open spec fn settled(self, job: Job<Seq<char>>) -> Self {
        Worker { referer: job.url, phase: Phase::Waiting, ..self }
    }

    /// A task is dealt with, and no album was found.
    pub open spec fn settled_failed(
        self,
        job: Job<Seq<char>>,
        worked: usize,
        notice: Option<Seq<char>>,
    ) -> (Self, Effects<Seq<char>>) {
        (
            self.settled(job),
            Effects {
                notice,
                count: Some(Count::Failed),
                report: self.report_due(worked),
                farewell: None,
            },
        )
    }

    /// The worker with a task to try: it tries while it may, and then gives the task back.
    pub open spec fn attempt(self, job: Job<Seq<char>>) -> Self {
        if job.remaining > 0 {
            self.at(
                Phase::Requesting { job: Job { remaining: (job.remaining - 1) as u64, ..job } },
            )
        } else {
            self.at(Phase::Requeueing { job })
        }
    }

    /// The worker waits before it tries the task again.
    pub open spec fn retry(
        self,
        job: Job<Seq<char>>,
        millis: u64,
        notice: Seq<char>,
    ) -> (Self, Effects<Seq<char>>) {
        (self.at(Phase::Pausing { job, millis }), Effects::note(notice))
    }

    /// A response came.
    pub open spec fn answered(
        self,
        job: Job<Seq<char>>,
        status: u16,
        worked: usize,
    ) -> (Self, Effects<Seq<char>>) {
        match meaning_of(status) {
            Meaning::Page | Meaning::ServerError | Meaning::Forbidden => (
                self.at(Phase::Reading { job, status, worked }),
                Effects::none(),
            ),
            Meaning::RateLimited => if self.using_proxies {
                (
                    self.at(Phase::Requeueing { job }),
                    Effects::note(rate_limited_text(self.number as nat)),
                )
            } else {
                self.retry(job, RATE_PAUSE, rate_limited_waiting_text(self.number as nat))
            },
            Meaning::NotFound => self.settled_failed(job, worked, None),
            Meaning::Unexpected => self.retry(
                job,
                RETRY_PAUSE,
                unexpected_status_text(job.url, status as nat),
            ),
        }
    }

    /// The page of an album was read.
    pub open spec fn page_read(
        self,
        job: Job<Seq<char>>,
        worked: usize,
        body: Result<Seq<char>, Seq<char>>,
        data: Option<Seq<char>>,
    ) -> (Self, Effects<Seq<char>>) {
        match body {
            Ok(body) => match data {
                Some(data) => (self.at(Phase::Parsing { job, data, worked }), Effects::none()),
                None => self.settled_failed(
                    job,
                    worked,
                    Some(album_missing_text(job.url, body)),
                ),
            },
            Err(error) => self.settled_failed(
                job,
                worked,
                Some(body_read_failed_text(job.url, error)),
            ),
        }
    }

    /// The body of a 403 response was read. A service over capacity costs the task nothing.
    pub open spec fn forbidden_read(
        self,
        job: Job<Seq<char>>,
        status: u16,
        worked: usize,
        body: Result<Seq<char>, Seq<char>>,
    ) -> (Self, Effects<Seq<char>>) {
        match body {
            Ok(body) => if contains_text(body, OVER_CAPACITY@) {
                self.retry(
                    Job { remaining: (job.remaining + 1) as u64, ..job },
                    SHORT_PAUSE,
                    over_capacity_text(self.number as nat),
                )
            } else {
                self.settled_failed(job, worked, None)
            },
            Err(_) => self.retry(
                job,
                RETRY_PAUSE,
                forbidden_unread_text(job.url, status as nat),
            ),
        }
    }

    /// The body of a response was read.
    pub open spec fn body_read(
        self,
        job: Job<Seq<char>>,
        status: u16,
        worked: usize,
        body: Result<Seq<char>, Seq<char>>,
        data: Option<Seq<char>>,
    ) -> (Self, Effects<Seq<char>>) {
        match meaning_of(status) {
            Meaning::Page => self.page_read(job, worked, body, data),
            Meaning::ServerError => self.retry(
                job,
                RETRY_PAUSE,
                server_error_text(
                    job.url,
                    status as nat,
                    clipped(answer_text(body), PREVIEW_BYTES as nat),
                ),
            ),
            Meaning::Forbidden => self.forbidden_read(job, status, worked, body),
            _ => (self.at(Phase::Reading { job, status, worked }), Effects::none()),
        }
    }

    /// Album data was parsed.
    pub open spec fn album_parsed(
        self,
        job: Job<Seq<char>>,
        data: Seq<char>,
        worked: usize,
        counts: Result<bool, Seq<char>>,
    ) -> (Self, Effects<Seq<char>>) {
        match counts {
            Ok(counts) => if counts {
                (
                    self.at(Phase::Delivering { job, data, worked }),
                    Effects {
                        notice: None,
                        count: Some(Count::Found),
                        report: false,
                        farewell: None,
                    },
                )
            } else {
                self.settled_failed(job, worked, None)
            },
            Err(error) => self.settled_failed(
                job,
                worked,
                Some(album_parse_failed_text(job.url, error, data)),
            ),
        }
    }

    /// The worker after an event, and what the step does besides. An event that does not answer
    /// the pending action changes nothing.
    pub open spec fn next(self, event: Event<Seq<char>>) -> (Self, Effects<Seq<char>>) {
        match (self.phase, event) {
            (Phase::Starting, Event::ClientBuilt { outcome }) => match outcome {
                Ok(_) => (self.at(Phase::Waiting), Effects::none()),
                Err(error) => (
                    self.at(Phase::Abandoning),
                    Effects::note(client_failed_text(error)),
                ),
            },
            (Phase::Abandoning, Event::Paused) => (self.at(Phase::Stopped), Effects::none()),
            (Phase::Waiting, Event::TaskReceived { task }) => match task {
                Some(task) => (
                    self.attempt(
                        Job { task, url: url_text(task), remaining: budget_of(self.using_proxies) },
                    ),
                    Effects::none(),
                ),
                None => (
                    self.at(Phase::Stopped),
                    Effects::note(worker_done_text(self.number as nat)),
                ),
            },
            (Phase::Requesting { job }, Event::RequestFailed { error }) => self.retry(
                job,
                SHORT_PAUSE,
                request_failed_text(job.url, error),
            ),
            (Phase::Requesting { job }, Event::Answered { status, worked }) => self.answered(
                job,
                status,
                worked,
            ),
            (
                Phase::Reading { job, status, worked },
                Event::BodyRead { body, data },
            ) => self.body_read(job, status, worked, body, data),
            (
                Phase::Parsing { job, data, worked },
                Event::AlbumParsed { counts },
            ) => self.album_parsed(job, data, worked, counts),
            (Phase::Delivering { job, worked, .. }, Event::Delivered { outcome }) => match outcome {
                Ok(_) => (
                    self.settled(job),
                    Effects {
                        notice: None,
                        count: None,
                        report: self.report_due(worked),
                        farewell: None,
                    },
                ),
                Err(error) => (
                    self.at(Phase::Stopped),
                    Effects::note(result_send_failed_text(error)),
                ),
            },
            (Phase::Pausing { job, .. }, Event::Paused) => (self.attempt(job), Effects::none()),
            (Phase::Requeueing { job }, Event::Requeued { outcome }) => match outcome {
                Ok(_) => (
                    self.at(Phase::Stopped),
                    Effects {
                        notice: None,
                        count: Some(Count::WorkerFailed),
                        report: false,
                        farewell: Some(worker_failed_text(self.number as nat)),
                    },
                ),
                Err(error) => (
                    self.at(Phase::Stopped),
                    Effects::note(requeue_failed_text(error)),
                ),
            },
            _ => (self, Effects::none()),
        }
    }

    /// Whether an event can be taken: the start of a failed server's answer must end where a
    /// character ends.
    pub open spec fn takes(self, event: Event<Seq<char>>) -> bool {
        match (self.phase, event) {
            (Phase::Reading { status, .. }, Event::BodyRead { body, .. }) => {
                meaning_of(status) is ServerError ==> clippable(
                    answer_text(body),
                    PREVIEW_BYTES as nat,
                )
            },
            _ => true,
        }
    }

    /// The album data that the worker looks for in a body that it has read.
    pub open spec fn data_in(self, body: Result<Seq<char>, Seq<char>>) -> Option<Seq<char>> {
        match (self.phase, body) {
            (Phase::Reading { status, .. }, Ok(body)) => if meaning_of(status) is Page {
                album_data(body)
            } else {
                None
            },
            _ => None,
        }
    }
}

/// No effect at all.
fn no_effects() -> (r: Effects<String>)
    ensures
        r@ == Effects::<Seq<char>>::none(),
{
    Effects { notice: None, count: None, report: false, farewell: None }
}

/// A line to print, and no more.
fn note(text: String) -> (r: Effects<String>)
    ensures
        r@ == Effects::<Seq<char>>::note(text@),
{
    Effects { notice: Some(text), count: None, report: false, farewell: None }
}

impl Worker<String> {
    /// A worker before it does anything.
    pub fn new(number: u64, using_proxies: bool, concurrent: usize) -> (r: Worker<String>)
        requires
            concurrent > 0,
        ensures
            r@ == Worker::<Seq<char>>::initial(number, using_proxies, concurrent),
            r@.wf(),
    {
        Worker {
            number,
            using_proxies,
            concurrent,
            referer: HOME.to_owned(),
            phase: Phase::Starting,
        }
    }

    /// What is to be done for the worker now.
    pub fn action(&self) -> (r: Action<String>)
        ensures
            r@ == self@.pending(),
    {
        match &self.phase {
            Phase::Starting => Action::BuildClient,
            Phase::Abandoning => Action::Pause { millis: CLIENT_PAUSE },
            Phase::Waiting => Action::Receive,
            Phase::Requesting { job } => Action::Request {
                url: job.url.clone(),
                referer: self.referer.clone(),
                cookie: COOKIES.to_owned(),
            },
            Phase::Reading { .. } => Action::ReadBody,
            Phase::Parsing { data, .. } => Action::ParseAlbum { data: data.clone() },
            Phase::Delivering { data, .. } => Action::Deliver { data: data.clone() },
            Phase::Pausing { millis, .. } => Action::Pause { millis: *millis },
            Phase::Requeueing { job } => Action::Requeue { task: job.task.clone() },
            Phase::Stopped => Action::Stop,
        }
    }

    /// The same worker at something else.
    fn moved(self, phase: Phase<String>) -> (r: Worker<String>)
        ensures
            r@ == self@.at(phase@),
    {
        Worker {
            number: self.number,
            using_proxies: self.using_proxies,
            concurrent: self.concurrent,
            referer: self.referer,
            phase,
        }
    }

    /// The worker after a task is dealt with.
    fn settle(self, job: Job<String>) -> (r: Worker<String>)
        ensures
            r@ == self@.settled(job@),
    {
        Worker {
            number: self.number,
            using_proxies: self.using_proxies,
            concurrent: self.concurrent,
            referer: job.url,
            phase: Phase::Waiting,
        }
    }

    /// Whether a report is due.
    fn due(&self, worked: usize) -> (r: bool)
        requires
            self@.wf(),
        ensures
            r == self@.report_due(worked),
    {
        worked % self.concurrent == 0
    }

    /// A task is dealt with, and no album was found.
    fn settle_failed(self, job: Job<String>, worked: usize, notice: Option<String>) -> (r: (
        Worker<String>,
        Effects<String>,
    ))
        requires
            self@.wf(),
        ensures
            (r.0@, r.1@) == self@.settled_failed(job@, worked, text_of(notice)),
    {
        let report = self.due(worked);
        (self.settle(job), Effects { notice, count: Some(Count::Failed), report, farewell: None })
    }

    /// Tries a task, or gives it back.
    fn try_task(self, job: Job<String>) -> (r: Worker<String>)
        ensures
            r@ == self@.attempt(job@),
    {
        if job.remaining > 0 {
            let remaining: u64 = job.remaining - 1;
            self.moved(
                Phase::Requesting { job: Job { task: job.task, url: job.url, remaining } },
            )
        } else {
            self.moved(Phase::Requeueing { job })
        }
    }

    /// Waits before the next try.
    fn pause(self, job: Job<String>, millis: u64, notice: String) -> (r: (
        Worker<String>,
        Effects<String>,
    ))
        ensures
            (r.0@, r.1@) == self@.retry(job@, millis, notice@),
    {
        (self.moved(Phase::Pausing { job, millis }), note(notice))
    }

    /// A response came.
    fn on_answer(self, job: Job<String>, status: u16, worked: usize) -> (r: (
        Worker<String>,
        Effects<String>,
    ))
        requires
            self@.wf(),
        ensures
            (r.0@, r.1@) == self@.answered(job@, status, worked),
    {
        match classify(status) {
            Meaning::Page | Meaning::ServerError | Meaning::Forbidden => {
                (self.moved(Phase::Reading { job, status, worked }), no_effects())
            },
            Meaning::RateLimited => {
                let number: u64 = self.number;
                if self.using_proxies {
                    (self.moved(Phase::Requeueing { job }), note(rate_limited(number)))
                } else {
                    self.pause(job, RATE_PAUSE, rate_limited_waiting(number))
                }
            },
            Meaning::NotFound => self.settle_failed(job, worked, None),
            Meaning::Unexpected => {
                let notice = unexpected_status(job.url.as_str(), status as u64);
                self.pause(job, RETRY_PAUSE, notice)
            },
        }
    }

    /// The page of an album was read.
    fn on_page(
        self,
        job: Job<String>,
        worked: usize,
        body: Result<String, String>,
        data: Option<String>,
    ) -> (r: (Worker<String>, Effects<String>))
        requires
            self@.wf(),
        ensures
            (r.0@, r.1@) == self@.page_read(job@, worked, outcome_of(body), text_of(data)),
    {
        match body {
            Ok(body) => match data {
                Some(data) => (self.moved(Phase::Parsing { job, data, worked }), no_effects()),
                None => {
                    let notice = album_missing(job.url.as_str(), body.as_str());
                    self.settle_failed(job, worked, Some(notice))
                },
            },
            Err(error) => {
                let notice = body_read_failed(job.url.as_str(), error.as_str());
                self.settle_failed(job, worked, Some(notice))
            },
        }
    }

    /// The body of a 403 response was read.
    fn on_forbidden(
        self,
        job: Job<String>,
        status: u16,
        worked: usize,
        body: Result<String, String>,
    ) -> (r: (Worker<String>, Effects<String>))
        requires
            self@.wf(),
            job.remaining < u64::MAX,
        ensures
            (r.0@, r.1@) == self@.forbidden_read(job@, status, worked, outcome_of(body)),
    {
        match body {
            Ok(body) => {
                if contains(body.as_str(), OVER_CAPACITY) {
                    let notice = over_capacity(self.number);
                    let remaining: u64 = job.remaining + 1;
                    self.pause(
                        Job { task: job.task, url: job.url, remaining },
                        SHORT_PAUSE,
                        notice,
                    )
                } else {
                    self.settle_failed(job, worked, None)
                }
            },
            Err(_) => {
                let notice = forbidden_unread(job.url.as_str(), status as u64);
                self.pause(job, RETRY_PAUSE, notice)
            },
        }
    }

    /// Album data was parsed.
    fn on_album(
        self,
        job: Job<String>,
        data: String,
        worked: usize,
        counts: Result<bool, String>,
    ) -> (r: (Worker<String>, Effects<String>))
        requires
            self@.wf(),
        ensures
            (r.0@, r.1@) == self@.album_parsed(
                job@,
                data@,
                worked,
                match counts {
                    Ok(counts) => Ok(counts),
                    Err(error) => Err(error@),
                },
            ),
    {
        match counts {
            Ok(true) => (
                self.moved(Phase::Delivering { job, data, worked }),
                Effects { notice: None, count: Some(Count::Found), report: false, farewell: None },
            ),
            Ok(false) => self.settle_failed(job, worked, None),
            Err(error) => {
                let notice = album_parse_failed(
                    job.url.as_str(),
                    error.as_str(),
                    data.as_str(),
                );
                self.settle_failed(job, worked, Some(notice))
            },
        }
    }

    /// The body of a response was read.
    fn on_body(
        self,
        job: Job<String>,
        status: u16,
        worked: usize,
        body: Result<String, String>,
        data: Option<String>,
    ) -> (r: (Worker<String>, Effects<String>))
        requires
            self@.wf(),
            job.remaining < u64::MAX,
            meaning_of(status) is ServerError ==> clippable(
                answer_text(outcome_of(body)),
                PREVIEW_BYTES as nat,
            ),
        ensures
            (r.0@, r.1@) == self@.body_read(
                job@,
                status,
                worked,
                outcome_of(body),
                text_of(data),
            ),
    {
        match classify(status) {
            Meaning::Page => self.on_page(job, worked, body, data),
            Meaning::ServerError => {
                let text = answer(&body);
                let notice = server_error(
                    job.url.as_str(),
                    status as u64,
                    clip(text.as_str(), PREVIEW_BYTES),
                );
                self.pause(job, RETRY_PAUSE, notice)
            },
            Meaning::Forbidden => self.on_forbidden(job, status, worked, body),
            _ => (self.moved(Phase::Reading { job, status, worked }), no_effects()),
        }
    }

    /// Whether [`Worker::receive_body`] can take a body. Every other event can be taken anyway.
    pub fn accepts_body(&self, body: &Result<String, String>) -> (r: bool)
        ensures
            r == self@.takes(Event::BodyRead { body: outcome_of(*body), data: None }),
    {
        match &self.phase {
            Phase::Reading { status, .. } => {
                if let Meaning::ServerError = classify(*status) {
                    let text = answer(body);
                    can_clip(text.as_str(), PREVIEW_BYTES)
                } else {
                    true
                }
            },
            _ => true,
        }
    }

    /// Takes what came of the pending action.
    pub fn step(self, event: Event<String>) -> (r: (Worker<String>, Effects<String>))
        requires
            self@.wf(),
            self@.takes(event@),
        ensures
            (r.0@, r.1@) == self@.next(event@),
            r.0@.wf(),
    {
        let Worker { number, using_proxies, concurrent, referer, phase } = self;
        let idle = Worker { number, using_proxies, concurrent, referer, phase: Phase::Waiting };
        match (phase, event) {
            (Phase::Starting, Event::ClientBuilt { outcome }) => match outcome {
                Ok(_) => (idle, no_effects()),
                Err(error) => (
                    idle.moved(Phase::Abandoning),
                    note(client_failed(error.as_str())),
                ),
            },
            (Phase::Abandoning, Event::Paused) => (idle.moved(Phase::Stopped), no_effects()),
            (Phase::Waiting, Event::TaskReceived { task }) => match task {
                Some(task) => {
                    let url = album_url(task.as_str());
                    let remaining: u64 = budget(using_proxies);
                    (idle.try_task(Job { task, url, remaining }), no_effects())
                },
                None => (idle.moved(Phase::Stopped), note(worker_done(number))),
            },
            (Phase::Requesting { job }, Event::RequestFailed { error }) => {
                let notice = request_failed(job.url.as_str(), error.as_str());
                idle.pause(job, SHORT_PAUSE, notice)
            },
            (Phase::Requesting { job }, Event::Answered { status, worked }) => {
                idle.on_answer(job, status, worked)
            },
            (Phase::Reading { job, status, worked }, Event::BodyRead { body, data }) => {
                idle.on_body(job, status, worked, body, data)
            },
            (Phase::Parsing { job, data, worked }, Event::AlbumParsed { counts }) => {
                idle.on_album(job, data, worked, counts)
            },
            (Phase::Delivering { job, worked, .. }, Event::Delivered { outcome }) => match outcome {
                Ok(_) => {
                    let report = idle.due(worked);
                    (
                        idle.settle(job),
                        Effects { notice: None, count: None, report, farewell: None },
                    )
                },
                Err(error) => (
                    idle.moved(Phase::Stopped),
                    note(result_send_failed(error.as_str())),
                ),
            },
            (Phase::Pausing { job, .. }, Event::Paused) => (idle.try_task(job), no_effects()),
            (Phase::Requeueing { job }, Event::Requeued { outcome }) => match outcome {
                Ok(_) => (
                    idle.moved(Phase::Stopped),
                    Effects {
                        notice: None,
                        count: Some(Count::WorkerFailed),
                        report: false,
                        farewell: Some(worker_failed(number)),
                    },
                ),
                Err(error) => (
                    idle.moved(Phase::Stopped),
                    note(requeue_failed(error.as_str())),
                ),
            },
            (phase, _) => (idle.moved(phase), no_effects()),
        }
    }

    /// Takes the body of a response, and looks for album data in the page of an album. The data is
    /// a piece of the page.
    pub fn receive_body(self, pattern: &AlbumPattern, body: Result<String, String>) -> (r: (
        Worker<String>,
        Effects<String>,
    ))
        requires
            self@.wf(),
            self@.takes(Event::BodyRead { body: outcome_of(body), data: None }),
        ensures
            (r.0@, r.1@) == self@.next(
                Event::BodyRead {
                    body: outcome_of(body),
                    data: self@.data_in(outcome_of(body)),
                },
            ),
            self@.phase is Reading && r.0@.phase is Parsing ==> body is Ok && contains_text(
                body->Ok_0@,
                r.0@.phase->Parsing_data,
            ),
            r.0@.wf(),
    {
        let data = match (&self.phase, &body) {
            (Phase::Reading { status, .. }, Ok(body)) => {
                if let Meaning::Page = classify(*status) {
                    pattern.find(body.as_str())
                } else {
                    None
                }
            },
            _ => None,
        };
        self.step(Event::BodyRead { body, data })
    }

    /// Takes the album that was parsed, or the reason why it could not be.
    pub fn receive_album(self, album: Result<Album, String>) -> (r: (
        Worker<String>,
        Effects<String>,
    ))
        requires
            self@.wf(),
        ensures
            (r.0@, r.1@) == self@.next(
                Event::AlbumParsed {
                    counts: match album {
                        Ok(album) => Ok(album.counts()),
                        Err(error) => Err(error@),
                    },
                },
            ),
            r.0@.wf(),
    {
        let counts = match album {
            Ok(album) => Ok(album.has_content()),
            Err(error) => Err(error),
        };
        self.step(Event::AlbumParsed { counts })
    }
}

} // verus!
