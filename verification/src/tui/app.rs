//! The state of the interface.

use vstd::prelude::*;
use crate::metric::{BackendMetric, MetricApiReq, MetricApiResp};
use crate::tui::fetch::{sent, Fetcher};

verus! {

/// A key of the keyboard, as far as it matters.
#[derive(Clone, Copy, PartialEq, Eq, Structural, Debug)]
pub enum KeyCode {
    Char(char),
    Down,
    Up,
    Other,
}

/// What the terminal reports.
#[derive(Clone, Copy, PartialEq, Eq, Structural, Debug)]
pub enum UiEvent {
    /// A key, whether it is held with modifiers, and whether it went down.
    Key { code: KeyCode, modified: bool, pressed: bool },
    Other,
}

/// What an event asks for.
#[derive(Clone, Copy, PartialEq, Eq, Structural, Debug)]
pub enum Wish {
    Quit,
    Next,
    Previous,
    SwitchStatus,
    SwitchProtocol,
    Reset,
    Nothing,
}

/// What an event asks for. Only `q` without modifiers quits, and it alone need not
/// be a key that went down.
pub open spec fn wish_of(ev: UiEvent) -> Wish {
    match ev {
        UiEvent::Other => Wish::Nothing,
        UiEvent::Key { code, modified, pressed } => if code == KeyCode::Char('q') && !modified {
            Wish::Quit
        } else if !pressed {
            Wish::Nothing
        } else if code == KeyCode::Down || code == KeyCode::Char('k') {
            Wish::Next
        } else if code == KeyCode::Up || code == KeyCode::Char('j') {
            Wish::Previous
        } else if code == KeyCode::Char(' ') {
            Wish::SwitchStatus
        } else if code == KeyCode::Char('s') {
            Wish::SwitchProtocol
        } else if code == KeyCode::Char('r') {
            Wish::Reset
        } else {
            Wish::Nothing
        },
    }
}

/// What an event asks for.
pub fn wish(ev: UiEvent) -> (r: Wish)
    ensures
        r == wish_of(ev),
{
    match ev {
        UiEvent::Other => Wish::Nothing,
        UiEvent::Key { code, modified, pressed } => {
            if let KeyCode::Char('q') = code {
                if !modified {
                    return Wish::Quit;
                }
            }
            if !pressed {
                return Wish::Nothing;
            }
            match code {
                KeyCode::Down => Wish::Next,
                KeyCode::Up => Wish::Previous,
                KeyCode::Char('k') => Wish::Next,
                KeyCode::Char('j') => Wish::Previous,
                KeyCode::Char(' ') => Wish::SwitchStatus,
                KeyCode::Char('s') => Wish::SwitchProtocol,
                KeyCode::Char('r') => Wish::Reset,
                _ => Wish::Nothing,
            }
        },
    }
}

/// The row below the selected one, and the first below the last.
pub open spec fn next_row(selected: Option<usize>, len: nat) -> usize {
    match selected {
        Some(i) => if i >= len - 1 {
            0
        } else {
            (i + 1) as usize
        },
        None => 0,
    }
}

/// The row above the selected one, and the last above the first.
pub open spec fn previous_row(selected: Option<usize>, len: nat) -> usize {
    match selected {
        Some(i) => if i == 0 {
            (len - 1) as usize
        } else {
            (i - 1) as usize
        },
        None => 0,
    }
}

/// The interface.
pub struct App {
    pub backends: Vec<BackendMetric>,
    pub selected: Option<usize>,
    pub fetcher: Fetcher,
    pub do_quit: bool,
    pub log_text: String,
}

/// What the interface does about an event, and what is then sent to the service.
pub open spec fn answered(
    before: App,
    after: App,
    ev: UiEvent,
    r: Option<MetricApiReq>,
) -> bool {
    &&& after.backends@ == before.backends@
    &&& match wish_of(ev) {
        Wish::Quit => {
            &&& r is None
            &&& after.do_quit
            &&& after.selected == before.selected
            &&& after.fetcher == before.fetcher
            &&& after.log_text@ == before.log_text@
        },
        Wish::Nothing => {
            &&& r is None
            &&& after == before
        },
        Wish::Next => {
            &&& r is None
            &&& after.selected == Some(next_row(before.selected, before.backends@.len()))
            &&& after.do_quit == before.do_quit
            &&& after.fetcher == before.fetcher
            &&& after.log_text@ == before.log_text@
        },
        Wish::Previous => {
            &&& r is None
            &&& after.selected == Some(previous_row(before.selected, before.backends@.len()))
            &&& after.do_quit == before.do_quit
            &&& after.fetcher == before.fetcher
            &&& after.log_text@ == before.log_text@
        },
        Wish::SwitchStatus => asked(
            before,
            after,
            |id: usize| MetricApiReq::SwitchBackendStatus { backend_id: id },
            r,
        ),
        Wish::SwitchProtocol => asked(
            before,
            after,
            |id: usize| MetricApiReq::SwitchBackendProtocol { backend_id: id },
            r,
        ),
        Wish::Reset => asked(
            before,
            after,
            |id: usize| MetricApiReq::ResetBackend { backend_id: id },
            r,
        ),
    }
}

/// A request about the selected backend is sent unless one is on its way, and the
/// log is cleared.
pub open spec fn asked(
    before: App,
    after: App,
    req: spec_fn(usize) -> MetricApiReq,
    r: Option<MetricApiReq>,
) -> bool {
    &&& after.selected == before.selected
    &&& after.do_quit == before.do_quit
    &&& match before.selected {
        Some(id) => {
            &&& after.log_text@ == ""@
            &&& sent(before.fetcher, after.fetcher, id, req(id), r)
        },
        None => {
            &&& r is None
            &&& after.log_text@ == before.log_text@
            &&& after.fetcher == before.fetcher
        },
    }
}

/// Whether the rows that an event moves to are there.
pub open spec fn takes(app: App, ev: UiEvent) -> bool {
    wish_of(ev) is Next || wish_of(ev) is Previous ==> app.selected is None || app.backends@.len()
        > 0
}

impl App {
    /// Whether the rows that an event moves to are there.
    pub fn takes_event(&self, ev: UiEvent) -> (r: bool)
        ensures
            r == takes(*self, ev),
    {
        match wish(ev) {
            Wish::Next | Wish::Previous => self.selected.is_none() || self.backends.len() > 0,
            _ => true,
        }
    }

    /// An interface that shows nothing yet, with the first row selected.
    pub fn new() -> (r: Self)
        ensures
            r.backends@.len() == 0,
            r.selected == Some(0usize),
            !r.fetcher.waiting(),
            !r.do_quit,
            r.log_text@ == ""@,
    {
        App {
            backends: Vec::new(),
            selected: Some(0),
            fetcher: Fetcher::new(),
            do_quit: false,
            log_text: "".to_owned(),
        }
    }

    /// Whether a request is on its way.
    pub fn any_work_pending(&self) -> (r: bool)
        ensures
            r == self.fetcher.waiting(),
    {
        self.fetcher.is_pending()
    }

    /// Shows what came from the service: new metrics take the place of the old,
    /// an error goes to the log.
    pub fn handle_fetch(&mut self, fetch: MetricApiResp)
        ensures
            final(self).selected == old(self).selected,
            final(self).fetcher == old(self).fetcher,
            final(self).do_quit == old(self).do_quit,
            match fetch {
                MetricApiResp::AllBackends { items } => final(self).backends == items
                    && final(self).log_text@ == old(self).log_text@,
                MetricApiResp::Error { msg } => final(self).log_text == msg
                    && final(self).backends == old(self).backends,
                _ => *final(self) == *old(self),
            },
    {
        match fetch {
            MetricApiResp::AllBackends { items } => {
                self.backends = items;
            },
            MetricApiResp::SwitchBackendStatus => {},
            MetricApiResp::ResetBackend => {},
            MetricApiResp::SwitchBackendProtocol => {},
            MetricApiResp::Error { msg } => {
                self.log_text = msg;
            },
        }
    }

    /// Takes an event in. Gives back what is to be sent to the service.
    pub fn event(&mut self, ev: UiEvent) -> (r: Option<MetricApiReq>)
        requires
            takes(*old(self), ev),
        ensures
            answered(*old(self), *final(self), ev, r),
    {
        match wish(ev) {
            Wish::Quit => {
                self.do_quit = true;
                None
            },
            Wish::Next => {
                self.select_next_backend();
                None
            },
            Wish::Previous => {
                self.select_prev_backend();
                None
            },
            Wish::SwitchStatus => match self.selected {
                Some(selected) => {
                    self.log_text = "".to_owned();
                    self.fetcher.switch_backend_status(selected)
                },
                None => None,
            },
            Wish::SwitchProtocol => match self.selected {
                Some(selected) => {
                    self.log_text = "".to_owned();
                    self.fetcher.switch_backend_protocol(selected)
                },
                None => None,
            },
            Wish::Reset => match self.selected {
                Some(selected) => {
                    self.log_text = "".to_owned();
                    self.fetcher.reset_backend(selected)
                },
                None => None,
            },
            Wish::Nothing => None,
        }
    }

    /// Selects the row below.
    pub fn select_next_backend(&mut self)
        requires
            old(self).selected is None || old(self).backends@.len() > 0,
        ensures
            *final(self) == (App {
                selected: Some(next_row(old(self).selected, old(self).backends@.len())),
                ..*old(self)
            }),
    {
        let i: usize = match self.selected {
            Some(i) => if i >= self.backends.len() - 1 {
                0
            } else {
                i + 1
            },
            None => 0,
        };
        self.selected = Some(i);
    }

    /// Selects the row above.
    pub fn select_prev_backend(&mut self)
        requires
            old(self).selected is None || old(self).backends@.len() > 0,
        ensures
            *final(self) == (App {
                selected: Some(previous_row(old(self).selected, old(self).backends@.len())),
                ..*old(self)
            }),
    {
        let i: usize = match self.selected {
            Some(i) => if i == 0 {
                self.backends.len() - 1
            } else {
                i - 1
            },
            None => 0,
        };
        self.selected = Some(i);
    }
}

/// Where an event of the interface comes from.
#[derive(Clone, Copy, PartialEq, Eq, Structural, Debug)]
pub enum QueueSource {
    Input,
    Spinner,
    Fetcher,
    Close,
}

/// The source at a place among the four that are waited for, or nothing where
/// there is no such place.
pub fn queue_source(index: usize) -> (r: Option<QueueSource>)
    ensures
        r == if index == 0 {
            Some(QueueSource::Input)
        } else if index == 1 {
            Some(QueueSource::Spinner)
        } else if index == 2 {
            Some(QueueSource::Fetcher)
        } else if index == 3 {
            Some(QueueSource::Close)
        } else {
            None
        },
{
    match index {
        0 => Some(QueueSource::Input),
        1 => Some(QueueSource::Spinner),
        2 => Some(QueueSource::Fetcher),
        3 => Some(QueueSource::Close),
        _ => None,
    }
}

/// An event of the interface.
pub enum QueueEvent {
    AppClose,
    SpinnerUpdate,
    Fetch(MetricApiResp),
    InputEvent(UiEvent),
}

/// What is done after an event.
#[derive(Clone, Copy, PartialEq, Eq, Structural, Debug)]
pub enum LoopStep {
    /// Only the spinner moves.
    Spin,
    /// The interface closes at once.
    Close,
    /// A request is sent, if there is one. The interface is drawn, and its spinner
    /// turns or rests. It may close then.
    Draw { send: Option<MetricApiReq>, spinning: bool, quit: bool },
}

/// Takes the interface one event further.
pub fn run_step(app: &mut App, event: QueueEvent) -> (r: LoopStep)
    requires
        event matches QueueEvent::InputEvent(ev) ==> takes(*old(app), ev),
    ensures
        match event {
            QueueEvent::SpinnerUpdate => r == LoopStep::Spin && *final(app) == *old(app),
            QueueEvent::AppClose => r == LoopStep::Close && *final(app) == *old(app),
            QueueEvent::InputEvent(ev) => r matches LoopStep::Draw { send, spinning, quit }
                && answered(*old(app), *final(app), ev, send) && spinning
                == final(app).fetcher.waiting() && quit == final(app).do_quit,
            QueueEvent::Fetch(resp) => {
                &&& r == LoopStep::Draw {
                    send: None,
                    spinning: old(app).fetcher.waiting(),
                    quit: old(app).do_quit,
                }
                &&& final(app).selected == old(app).selected
                &&& final(app).fetcher == old(app).fetcher
                &&& final(app).do_quit == old(app).do_quit
                &&& match resp {
                    MetricApiResp::AllBackends { items } => final(app).backends == items
                        && final(app).log_text@ == old(app).log_text@,
                    MetricApiResp::Error { msg } => final(app).log_text == msg
                        && final(app).backends == old(app).backends,
                    _ => *final(app) == *old(app),
                }
            },
        },
{
    let send: Option<MetricApiReq> = match event {
        QueueEvent::SpinnerUpdate => {
            return LoopStep::Spin;
        },
        QueueEvent::AppClose => {
            return LoopStep::Close;
        },
        QueueEvent::InputEvent(ev) => app.event(ev),
        QueueEvent::Fetch(resp) => {
            app.handle_fetch(resp);
            None
        },
    };
    LoopStep::Draw { send, spinning: app.any_work_pending(), quit: app.do_quit }
}

/// Going down and then up, or up and then down, leads back to the same row.
pub proof fn law_up_undoes_down(i: usize, len: nat)
    requires
        i < len,
        len <= usize::MAX,
    ensures
        next_row(Some(i), len) < len,
        previous_row(Some(i), len) < len,
        previous_row(Some(next_row(Some(i), len)), len) == i,
        next_row(Some(previous_row(Some(i), len)), len) == i,
{
}

/// Nothing but `q` without modifiers makes the interface quit.
pub proof fn law_only_q_quits(before: App, after: App, ev: UiEvent, r: Option<MetricApiReq>)
    requires
        answered(before, after, ev, r),
        !before.do_quit,
    ensures
        after.do_quit <==> (ev matches UiEvent::Key { code, modified, .. } && code == KeyCode::Char(
            'q',
        ) && !modified),
{
}

/// The arrow down and `k` select the row below, and the arrow up and `j` the row above, round
/// the ends, with modifiers or without. Nothing is sent and nothing else changes.
pub proof fn law_keys_that_move(
    app: &mut App,
    code: KeyCode,
    modified: bool,
    i: usize,
    r: Option<MetricApiReq>,
)
    requires
        call_ensures(App::event, (app, UiEvent::Key { code, modified, pressed: true }), r),
        old(app).selected == Some(i),
        i < old(app).backends@.len() <= usize::MAX,
    ensures
        code == KeyCode::Down || code == KeyCode::Char('k') ==> final(app).selected == Some(
            (if i + 1 < old(app).backends@.len() {
                i + 1
            } else {
                0
            }) as usize,
        ),
        code == KeyCode::Up || code == KeyCode::Char('j') ==> final(app).selected == Some(
            (if i > 0 {
                i - 1
            } else {
                old(app).backends@.len() - 1
            }) as usize,
        ),
        code == KeyCode::Down || code == KeyCode::Char('k') || code == KeyCode::Up || code
            == KeyCode::Char('j') ==> {
            &&& r is None
            &&& final(app).do_quit == old(app).do_quit
            &&& final(app).fetcher == old(app).fetcher
            &&& final(app).backends@ == old(app).backends@
            &&& final(app).log_text@ == old(app).log_text@
        },
{
}

/// The blank, `s` and `r` each ask for something of the selected backend: to switch it on or
/// off, to take it over to its other protocol, or to start it over. The request is about that
/// backend, it is sent unless one is on its way, and the log is cleared. No other key asks for
/// anything.
pub proof fn law_keys_that_ask(
    app: &mut App,
    code: KeyCode,
    modified: bool,
    r: Option<MetricApiReq>,
)
    requires
        call_ensures(App::event, (app, UiEvent::Key { code, modified, pressed: true }), r),
    ensures
        old(app).selected matches Some(id) ==> (!old(app).fetcher.waiting() ==> {
            &&& r == Some(MetricApiReq::SwitchBackendStatus { backend_id: id }) <==> code
                == KeyCode::Char(' ')
            &&& r == Some(MetricApiReq::SwitchBackendProtocol { backend_id: id }) <==> code
                == KeyCode::Char('s')
            &&& r == Some(MetricApiReq::ResetBackend { backend_id: id }) <==> code == KeyCode::Char(
                'r',
            )
            &&& r is Some ==> final(app).fetcher.waiting() && final(app).fetcher.waiting_on() == id
                && final(app).log_text@.len() == 0
        }),
        r != Some(MetricApiReq::AllBackends),
        old(app).fetcher.waiting() || old(app).selected is None ==> r is None,
        old(app).fetcher.waiting() ==> final(app).fetcher.waiting(),
        final(app).backends@ == old(app).backends@,
        code == KeyCode::Other ==> *final(app) == *old(app) && r is None,
{
    reveal_strlit("");
}

/// A key that goes up does nothing, but that `q` without modifiers quits whether it goes up or
/// down. What is no key does nothing.
pub proof fn law_keys_that_go_up(
    app: &mut App,
    code: KeyCode,
    modified: bool,
    r: Option<MetricApiReq>,
    other: &mut App,
    s: Option<MetricApiReq>,
)
    requires
        call_ensures(App::event, (app, UiEvent::Key { code, modified, pressed: false }), r),
        call_ensures(App::event, (other, UiEvent::Other), s),
    ensures
        code == KeyCode::Char('q') && !modified ==> final(app).do_quit && r is None,
        !(code == KeyCode::Char('q') && !modified) ==> *final(app) == *old(app) && r is None,
        *final(other) == *old(other) && s is None,
{
}

/// New metrics take the place of the old, an error goes to the log, and an answer that
/// something was done changes nothing that is shown.
pub proof fn law_what_comes_is_shown(app: &mut App, fetch: MetricApiResp)
    requires
        call_ensures(App::handle_fetch, (app, fetch), ()),
    ensures
        fetch matches MetricApiResp::AllBackends { items } ==> final(app).backends@ == items@
            && final(app).log_text@ == old(app).log_text@,
        fetch matches MetricApiResp::Error { msg } ==> final(app).log_text@ == msg@ && final(app).backends@ == old(app).backends@,
        !(fetch is AllBackends) && !(fetch is Error) ==> *final(app) == *old(app),
        final(app).selected == old(app).selected,
        final(app).do_quit == old(app).do_quit,
        final(app).fetcher == old(app).fetcher,
{
}

/// The interface closes at once when it is told to, and after it was drawn where it quits. It
/// spins exactly while a request is on its way, sends what an event asks for, and is not drawn
/// where only the spinner moves.
pub proof fn law_step_of_the_interface(
    app: &mut App,
    event: QueueEvent,
    r: LoopStep,
    by_event: &mut App,
    ev: UiEvent,
    sent_by_event: Option<MetricApiReq>,
)
    requires
        call_ensures(run_step, (app, event), r),
        *old(by_event) == *old(app),
        call_ensures(App::event, (by_event, ev), sent_by_event),
    ensures
        event is AppClose <==> r is Close,
        event is SpinnerUpdate <==> r is Spin,
        event is AppClose || event is SpinnerUpdate ==> *final(app) == *old(app),
        r matches LoopStep::Draw { spinning, quit, .. } ==> spinning == final(app).fetcher.waiting() && quit == final(app).do_quit,
        event matches QueueEvent::Fetch(_) ==> (r matches LoopStep::Draw { send, .. } && send
            is None),
        event == QueueEvent::InputEvent(ev) ==> (r matches LoopStep::Draw { send, .. } && send
            == sent_by_event) && final(app).selected == final(by_event).selected && final(app).do_quit == final(by_event).do_quit,
{
}

/// The four sources are at four places, one each, and no place beyond has one.
pub proof fn law_sources_at_their_places(
    a: usize,
    b: usize,
    x: Option<QueueSource>,
    y: Option<QueueSource>,
)
    requires
        call_ensures(queue_source, (a,), x),
        call_ensures(queue_source, (b,), y),
    ensures
        x is Some <==> a < 4,
        x is Some && x == y ==> a == b,
        x matches Some(QueueSource::Input) ==> a == 0,
        x matches Some(QueueSource::Close) ==> a == 3,
        x matches Some(QueueSource::Spinner) ==> a == 1,
{
}

/// An event that moves to another row is not taken in only where a row is selected of none at
/// all, and any other event always is.
pub proof fn law_events_that_are_taken_in(app: &App, ev: UiEvent, r: bool)
    requires
        call_ensures(App::takes_event, (app, ev), r),
    ensures
        app.backends@.len() > 0 || app.selected is None ==> r,
        ev is Other ==> r,
        ev matches UiEvent::Key { code, pressed, .. } ==> (app.backends@.len() == 0 && app.selected
            is Some ==> (r <==> !(pressed && (code == KeyCode::Down || code == KeyCode::Up || code
            == KeyCode::Char('k') || code == KeyCode::Char('j'))))),
{
}

/// Going down leads to the row below and from the last row to the first, and going up then
/// leads back.
pub proof fn law_down_and_up_again(app: &mut App, i: usize, up: &mut App)
    requires
        call_ensures(App::select_next_backend, (app,), ()),
        *old(up) == *final(app),
        call_ensures(App::select_prev_backend, (up,), ()),
        old(app).selected == Some(i),
        i < old(app).backends@.len() <= usize::MAX,
    ensures
        final(app).selected matches Some(next) && next < old(app).backends@.len() && (next == i + 1
            || (next == 0 && i + 1 == old(app).backends@.len())),
        final(up).selected == Some(i),
        final(up).backends@ == old(app).backends@,
{
}

/// A new interface shows nothing, waits for nothing, and has its first row selected.
pub proof fn law_new_interface(app: App, pending: bool)
    requires
        call_ensures(App::new, (), app),
        call_ensures(App::any_work_pending, (&app,), pending),
    ensures
        app.backends@.len() == 0,
        app.selected == Some(0usize),
        !pending,
        !app.do_quit,
        app.log_text@.len() == 0,
{
    reveal_strlit("");
}

} // verus!
