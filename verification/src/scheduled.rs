//! The schedules on which the background jobs run.
use vstd::prelude::*;

use crate::fetch::STORE;
use crate::platform::{Action, ActionView, Event, EventView};
use crate::refresh::{execute_token_refresh, RefreshState, RefreshStateView};
use crate::scrape::{execute_market_scrape, ScrapeState, ScrapeStateView};
use crate::text::{parse_bool, same_text};

verus! {

/// The schedule on which tokens are traded.
pub const REFRESH_CRON: &'static str = "*/20 * * * *";

/// The schedule on which quotes are collected.
pub const SCRAPE_CRON: &'static str = "*/1 * * * *";

/// The key of the switch that turns both jobs on.
pub const COLLECTING: &'static str = "collecting";

/// What is logged where the trade of tokens fails.
pub const REFRESH_FAILED: &'static str = "Token rotation loop failed";

/// What is logged where the collection of quotes fails.
pub const SCRAPE_FAILED: &'static str = "Market data extraction loop failed";

/// What is logged for any other schedule.
pub const UNKNOWN_CRON: &'static str = "Unknown Cron Schedule execution triggered.";

/// A background job.
#[derive(Debug, Clone, Copy, PartialEq, Eq, Structural)]
pub enum Job {
    Refresh,
    Scrape,
}

/// Where a scheduled run stands.
#[derive(Debug, PartialEq, Eq)]
pub enum ScheduledState {
    Start,
    BindingStore { cron: String },
    LoadingSwitch { cron: String },
    Refreshing(RefreshState),
    Scraping(ScrapeState),
    Finished,
}

/// What [`ScheduledState`] stands for.
pub enum ScheduledStateView {
    Start,
    BindingStore { cron: Seq<char> },
    LoadingSwitch { cron: Seq<char> },
    Refreshing(RefreshStateView),
    Scraping(ScrapeStateView),
    Finished,
}

impl View for ScheduledState {
    type V = ScheduledStateView;

    open spec fn view(&self) -> ScheduledStateView {
        match self {
            ScheduledState::Start => ScheduledStateView::Start,
            ScheduledState::BindingStore { cron } => ScheduledStateView::BindingStore {
                cron: cron@,
            },
            ScheduledState::LoadingSwitch { cron } => ScheduledStateView::LoadingSwitch {
                cron: cron@,
            },
            ScheduledState::Refreshing(job) => ScheduledStateView::Refreshing(job@),
            ScheduledState::Scraping(job) => ScheduledStateView::Scraping(job@),
            ScheduledState::Finished => ScheduledStateView::Finished,
        }
    }
}

/// The job that a schedule runs.
pub open spec fn job_of(cron: Seq<char>) -> Option<Job> {
    if cron == REFRESH_CRON@ {
        Some(Job::Refresh)
    } else if cron == SCRAPE_CRON@ {
        Some(Job::Scrape)
    } else {
        None
    }
}

/// Whether the switch is on: it is where the store holds the text `true`, and nowhere else.
pub open spec fn switched_on(stored: Option<Seq<char>>) -> bool {
    match stored {
        Some(text) => crate::text::bool_of(text) == Some(true),
        None => false,
    }
}

/// The run is over.
pub open spec fn run_over() -> (ScheduledStateView, ActionView) {
    (ScheduledStateView::Finished, ActionView::Stop)
}

/// How a run goes on after a step of its job, which put it into `state`: an error of the job is
/// logged under `message`, whoever met it; otherwise the job's action is the run's.
pub open spec fn job_stepped(
    state: ScheduledStateView,
    action: ActionView,
    message: Seq<char>,
) -> (ScheduledStateView, ActionView) {
    match action {
        ActionView::Abort => (
            ScheduledStateView::Finished,
            ActionView::ReportFailure { message, cause: None },
        ),
        ActionView::Fail { message: cause } => (
            ScheduledStateView::Finished,
            ActionView::ReportFailure { message, cause: Some(cause) },
        ),
        ActionView::Stop => run_over(),
        _ => (state, action),
    }
}

/// How a run goes on after a step of the trade of tokens.
pub open spec fn refresh_stepped(step: (RefreshStateView, ActionView)) -> (
    ScheduledStateView,
    ActionView,
) {
    job_stepped(ScheduledStateView::Refreshing(step.0), step.1, REFRESH_FAILED@)
}

/// How a run goes on after a step of the collection of quotes.
pub open spec fn scrape_stepped(step: (ScrapeStateView, ActionView)) -> (
    ScheduledStateView,
    ActionView,
) {
    job_stepped(ScheduledStateView::Scraping(step.0), step.1, SCRAPE_FAILED@)
}

/// How a run goes on once the switch has been read.
pub open spec fn switch_read(cron: Seq<char>, stored: Option<Seq<char>>) -> (
    ScheduledStateView,
    ActionView,
) {
    if switched_on(stored) {
        match job_of(cron) {
            Some(Job::Refresh) => refresh_stepped(
                crate::refresh::refresh_step(RefreshStateView::Start, EventView::Begin),
            ),
            Some(Job::Scrape) => scrape_stepped(
                crate::scrape::scrape_step(ScrapeStateView::Start, EventView::Begin),
            ),
            None => (
                ScheduledStateView::Finished,
                ActionView::Report { message: UNKNOWN_CRON@ },
            ),
        }
    } else {
        run_over()
    }
}

/// One step of a scheduled run. A run whose switch cannot be read is over.
pub open spec fn scheduled_step(state: ScheduledStateView, event: EventView) -> (
    ScheduledStateView,
    ActionView,
) {
    match (state, event) {
        (ScheduledStateView::Start, EventView::Triggered { cron }) => (
            ScheduledStateView::BindingStore { cron },
            ActionView::OpenStore { binding: STORE@ },
        ),
        (ScheduledStateView::BindingStore { cron }, EventView::Done) => (
            ScheduledStateView::LoadingSwitch { cron },
            ActionView::Load { key: COLLECTING@ },
        ),
        (ScheduledStateView::LoadingSwitch { cron }, EventView::Text { text }) => switch_read(
            cron,
            text,
        ),
        (ScheduledStateView::Refreshing(job), event) => refresh_stepped(
            crate::refresh::refresh_step(job, event),
        ),
        (ScheduledStateView::Scraping(job), event) => scrape_stepped(
            crate::scrape::scrape_step(job, event),
        ),
        _ => run_over(),
    }
}

/// The job that a schedule runs.
pub fn job_for(cron: &str) -> (job: Option<Job>)
    ensures
        job == job_of(cron@),
{
    if same_text(cron, REFRESH_CRON) {
        Some(Job::Refresh)
    } else if same_text(cron, SCRAPE_CRON) {
        Some(Job::Scrape)
    } else {
        None
    }
}

/// Goes on after a step of a job.
fn after_job(state: ScheduledState, action: Action, message: &str) -> (next: (
    ScheduledState,
    Action,
))
    ensures
        (next.0@, next.1@) == job_stepped(state@, action@, message@),
{
    match action {
        Action::Abort => (
            ScheduledState::Finished,
            Action::ReportFailure { message: message.to_owned(), cause: None },
        ),
        Action::Fail { message: cause } => (
            ScheduledState::Finished,
            Action::ReportFailure { message: message.to_owned(), cause: Some(cause) },
        ),
        Action::Stop => (ScheduledState::Finished, Action::Stop),
        action => (state, action),
    }
}

/// Takes the trade of tokens one step on.
fn step_refresh(job: RefreshState, event: Event) -> (next: (ScheduledState, Action))
    ensures
        (next.0@, next.1@) == refresh_stepped(crate::refresh::refresh_step(job@, event@)),
{
    let (job, action) = execute_token_refresh(job, event);
    after_job(ScheduledState::Refreshing(job), action, REFRESH_FAILED)
}

/// Takes the collection of quotes one step on.
fn step_scrape(job: ScrapeState, event: Event) -> (next: (ScheduledState, Action))
    ensures
        (next.0@, next.1@) == scrape_stepped(crate::scrape::scrape_step(job@, event@)),
{
    let (job, action) = execute_market_scrape(job, event);
    after_job(ScheduledState::Scraping(job), action, SCRAPE_FAILED)
}

/// Goes on once the switch has been read.
fn after_switch(cron: String, stored: Option<String>) -> (next: (ScheduledState, Action))
    ensures
        (next.0@, next.1@) == switch_read(cron@, stored.deep_view()),
{
    let on: bool = match stored {
        Some(text) => match parse_bool(text.as_str()) {
            Some(value) => value,
            None => false,
        },
        None => false,
    };
    if on {
        match job_for(cron.as_str()) {
            Some(Job::Refresh) => step_refresh(RefreshState::Start, Event::Begin),
            Some(Job::Scrape) => step_scrape(ScrapeState::Start, Event::Begin),
            None => (
                ScheduledState::Finished,
                Action::Report { message: UNKNOWN_CRON.to_owned() },
            ),
        }
    } else {
        (ScheduledState::Finished, Action::Stop)
    }
}

/// Takes a scheduled run one step on: from where it stands and what the host answered to where
/// it stands next and what the host is to do.
pub fn scheduled(state: ScheduledState, event: Event) -> (next: (ScheduledState, Action))
    ensures
        (next.0@, next.1@) == scheduled_step(state@, event@),
{
    match (state, event) {
        (ScheduledState::Start, Event::Triggered { cron }) => (
            ScheduledState::BindingStore { cron },
            Action::OpenStore { binding: STORE.to_owned() },
        ),
        (ScheduledState::BindingStore { cron }, Event::Done) => (
            ScheduledState::LoadingSwitch { cron },
            Action::Load { key: COLLECTING.to_owned() },
        ),
        (ScheduledState::LoadingSwitch { cron }, Event::Text { text }) => after_switch(cron, text),
        (ScheduledState::Refreshing(job), event) => step_refresh(job, event),
        (ScheduledState::Scraping(job), event) => step_scrape(job, event),
        _ => (ScheduledState::Finished, Action::Stop),
    }
}

} // verus!
