use octoproxy::metric::{
    BackendMetric, BackendProtocol, BackendStatus, Duration, MetricApiReq, MetricApiResp,
    MetricData,
};
use octoproxy::tui::app::{
    queue_source, run_step, App, KeyCode, LoopStep, QueueEvent, QueueSource, UiEvent,
};
use octoproxy::tui::draw::{
    backend_rows, header_area, header_cells, log_height, top_bar, Rect, StatusColor,
};
use octoproxy::tui::fetch::{
    next_request, reply_step, service_url, Fetcher, Reply, ReplyStep, RequestSource,
    BACKENDS_FETCHER_INTERVAL, DEFAULT_PORT,
};

fn backend(name: &str, status: BackendStatus) -> BackendMetric {
    let mut metric = MetricData::default();
    metric.status = status;
    metric.protocol = BackendProtocol::HTTP2;
    metric.active_connections = 12;
    metric.connection_time = Duration {
        secs: 1,
        nanos: 234_567_890,
    };
    BackendMetric {
        backend_name: name.to_owned(),
        domain: "d".to_owned(),
        address: "a".to_owned(),
        metric,
    }
}

fn app_with(statuses: &[BackendStatus]) -> App {
    let mut app = App::new();
    let items = statuses
        .iter()
        .enumerate()
        .map(|(i, s)| backend(&format!("b{}", i), *s))
        .collect();
    app.handle_fetch(MetricApiResp::AllBackends { items });
    app
}

fn press(code: KeyCode) -> UiEvent {
    UiEvent::Key {
        code,
        modified: false,
        pressed: true,
    }
}

#[test]
fn rows_are_selected_in_a_circle() {
    let mut app = app_with(&[BackendStatus::Normal; 3]);
    assert_eq!(app.selected, Some(0));
    assert_eq!(app.event(press(KeyCode::Down)), None);
    assert_eq!(app.selected, Some(1));
    app.event(press(KeyCode::Char('k')));
    app.event(press(KeyCode::Down));
    assert_eq!(app.selected, Some(0));
    app.event(press(KeyCode::Up));
    assert_eq!(app.selected, Some(2));
    app.event(press(KeyCode::Char('j')));
    assert_eq!(app.selected, Some(1));
}

#[test]
fn keys_ask_for_one_thing_at_a_time() {
    let mut app = app_with(&[BackendStatus::Normal; 2]);
    app.log_text = "old".to_owned();
    app.event(press(KeyCode::Down));
    let req = app.event(press(KeyCode::Char(' ')));
    assert_eq!(req, Some(MetricApiReq::SwitchBackendStatus { backend_id: 1 }));
    assert_eq!(app.log_text, "");
    assert!(app.any_work_pending());

    assert_eq!(app.event(press(KeyCode::Char('r'))), None);
    app.fetcher.done();
    let req = app.event(press(KeyCode::Char('r')));
    assert_eq!(req, Some(MetricApiReq::ResetBackend { backend_id: 1 }));
    app.fetcher.done();
    let req = app.event(press(KeyCode::Char('s')));
    assert_eq!(
        req,
        Some(MetricApiReq::SwitchBackendProtocol { backend_id: 1 })
    );
}

#[test]
fn only_q_quits() {
    let mut app = app_with(&[]);
    app.event(UiEvent::Key {
        code: KeyCode::Char('q'),
        modified: true,
        pressed: true,
    });
    app.event(UiEvent::Other);
    app.event(press(KeyCode::Other));
    app.event(press(KeyCode::Char('x')));
    assert!(!app.do_quit);
    app.event(UiEvent::Key {
        code: KeyCode::Char('q'),
        modified: false,
        pressed: false,
    });
    assert!(app.do_quit);
}

#[test]
fn released_keys_do_nothing() {
    let mut app = app_with(&[BackendStatus::Normal; 2]);
    let r = app.event(UiEvent::Key {
        code: KeyCode::Char(' '),
        modified: false,
        pressed: false,
    });
    assert_eq!(r, None);
    assert!(!app.any_work_pending());
}

#[test]
fn errors_go_to_the_log() {
    let mut app = app_with(&[BackendStatus::Normal]);
    assert_eq!(log_height(&app), 0);
    app.handle_fetch(MetricApiResp::Error {
        msg: "no suck backends".to_owned(),
    });
    assert_eq!(app.log_text, "no suck backends");
    assert_eq!(app.backends.len(), 1);
    assert_eq!(log_height(&app), 4);
    app.handle_fetch(MetricApiResp::ResetBackend);
    assert_eq!(app.log_text, "no suck backends");
}

#[test]
fn the_loop_turns_on_events() {
    let mut app = app_with(&[BackendStatus::Normal]);
    assert_eq!(
        run_step(&mut app, QueueEvent::SpinnerUpdate),
        LoopStep::Spin
    );
    assert_eq!(run_step(&mut app, QueueEvent::AppClose), LoopStep::Close);
    let step = run_step(&mut app, QueueEvent::InputEvent(press(KeyCode::Char('s'))));
    assert_eq!(
        step,
        LoopStep::Draw {
            send: Some(MetricApiReq::SwitchBackendProtocol { backend_id: 0 }),
            spinning: true,
            quit: false
        }
    );
    let step = run_step(
        &mut app,
        QueueEvent::Fetch(MetricApiResp::AllBackends { items: vec![] }),
    );
    assert_eq!(
        step,
        LoopStep::Draw {
            send: None,
            spinning: true,
            quit: false
        }
    );
    assert!(app.backends.is_empty());
    let step = run_step(&mut app, QueueEvent::InputEvent(press(KeyCode::Char('q'))));
    assert_eq!(
        step,
        LoopStep::Draw {
            send: None,
            spinning: true,
            quit: true
        }
    );
    assert_eq!(queue_source(0), Some(QueueSource::Input));
    assert_eq!(queue_source(1), Some(QueueSource::Spinner));
    assert_eq!(queue_source(2), Some(QueueSource::Fetcher));
    assert_eq!(queue_source(3), Some(QueueSource::Close));
    assert_eq!(queue_source(4), None);
}

#[test]
fn backends_are_shown_in_rows() {
    let mut app = app_with(&[
        BackendStatus::Normal,
        BackendStatus::Closed,
        BackendStatus::Unknown,
        BackendStatus::ForceClosed,
    ]);
    app.event(press(KeyCode::Down));
    app.event(press(KeyCode::Char(' ')));
    let rows = backend_rows(&app, 3);
    assert_eq!(rows.len(), 4);
    assert_eq!(
        rows[0].cells,
        [
            "b0        ".to_owned(),
            "NORMAL      ".to_owned(),
            "12          ".to_owned(),
            "1234ms      ".to_owned(),
            "http2       ".to_owned(),
        ]
    );
    assert_eq!(rows[0].below, "   ");
    let colors: Vec<StatusColor> = rows.iter().map(|r| r.color).collect();
    assert_eq!(
        colors,
        vec![
            StatusColor::Green,
            StatusColor::Red,
            StatusColor::Yellow,
            StatusColor::Magenta
        ]
    );
    let crossed: Vec<bool> = rows.iter().map(|r| r.crossed_out).collect();
    assert_eq!(crossed, vec![false, true, false, false]);
    app.fetcher.done();
    assert!(backend_rows(&app, 3).iter().all(|r| !r.crossed_out));
}

#[test]
fn headers_fill_their_columns() {
    assert_eq!(
        header_cells(),
        [
            "   name      ".to_owned(),
            "status      ".to_owned(),
            "active_conn ".to_owned(),
            "conn_time   ".to_owned(),
            "proto       ".to_owned(),
        ]
    );
    let app = app_with(&[
        BackendStatus::Normal,
        BackendStatus::Closed,
        BackendStatus::Normal,
    ]);
    assert_eq!(top_bar(&app), "available backends : 2");
    assert_eq!(top_bar(&app_with(&[])), "available backends : 0");
}

#[test]
fn the_header_keeps_inside_the_border() {
    let rect = |x, y, width, height| Rect {
        x,
        y,
        width,
        height,
    };
    assert_eq!(header_area(rect(0, 2, 80, 2)), rect(1, 3, 79, 1));
    assert_eq!(header_area(rect(5, 6, 0, 0)), rect(5, 6, 0, 0));
    assert_eq!(
        header_area(rect(u16::MAX, u16::MAX, 9, 9)),
        rect(u16::MAX, u16::MAX, 8, 8)
    );
}

#[test]
fn replies_are_sorted() {
    for resp in [
        MetricApiResp::SwitchBackendStatus,
        MetricApiResp::SwitchBackendProtocol,
        MetricApiResp::ResetBackend,
    ] {
        assert!(matches!(reply_step(Reply::Answer(resp)), ReplyStep::Done));
    }
    let resp = MetricApiResp::AllBackends { items: vec![] };
    assert!(matches!(
        reply_step(Reply::Answer(resp)),
        ReplyStep::Show(MetricApiResp::AllBackends { .. })
    ));
    let resp = MetricApiResp::Error {
        msg: "x".to_owned(),
    };
    assert!(matches!(
        reply_step(Reply::Answer(resp)),
        ReplyStep::Show(MetricApiResp::Error { .. })
    ));
    assert!(matches!(reply_step(Reply::Other), ReplyStep::Ignore));
    assert!(matches!(reply_step(Reply::Closed), ReplyStep::Close));
    match reply_step(Reply::Malformed("m".to_owned())) {
        ReplyStep::Fail(message) => assert_eq!(message, "m"),
        _ => unreachable!(),
    }
}

#[test]
fn the_service_is_asked_at_every_tick() {
    assert_eq!(next_request(RequestSource::Tick), MetricApiReq::AllBackends);
    let req = MetricApiReq::ResetBackend { backend_id: 4 };
    assert_eq!(next_request(RequestSource::Queue(req)), req);
    assert_eq!(service_url(DEFAULT_PORT), "ws://localhost:8404/");
    assert_eq!(service_url(0), "ws://localhost:0/");
    assert_eq!(BACKENDS_FETCHER_INTERVAL, 500);

    let mut fetcher = Fetcher::new();
    assert_eq!(
        fetcher.reset_backend(3),
        Some(MetricApiReq::ResetBackend { backend_id: 3 })
    );
    assert_eq!(fetcher.switch_backend_status(5), None);
    assert_eq!(fetcher.get_pending_on_id(), 3);
    assert!(fetcher.is_pending());
}

#[test]
fn rows_that_are_not_there_cannot_be_moved_to() {
    let mut app = App::new();
    assert!(!app.takes_event(press(KeyCode::Down)));
    assert!(!app.takes_event(press(KeyCode::Up)));
    assert!(app.takes_event(press(KeyCode::Char('q'))));
    assert!(app.takes_event(UiEvent::Other));
    app.selected = None;
    assert!(app.takes_event(press(KeyCode::Down)));
    let app = app_with(&[BackendStatus::Normal]);
    assert!(app.takes_event(press(KeyCode::Down)));
}
