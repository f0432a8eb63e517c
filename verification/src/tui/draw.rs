//! What the interface shows.

use vstd::prelude::*;
use vstd::string::StrSliceExecFns;
use crate::metric::{BackendMetric, BackendStatus, Duration, MetricView};
use crate::text::{
    blank, decimal, decimal_text, followed_by, law_decimal_denotes_its_number, pad_right, padded,
    spaces,
};
use crate::tui::app::App;

verus! {

/// A part of the screen.
#[derive(Clone, Copy, PartialEq, Eq, Structural, Debug)]
pub struct Rect {
    pub x: u16,
    pub y: u16,
    pub width: u16,
    pub height: u16,
}

/// A sum, but no more than a coordinate can be.
pub open spec fn capped(a: u16, b: u16) -> u16 {
    if a + b <= u16::MAX {
        (a + b) as u16
    } else {
        u16::MAX
    }
}

fn min(a: u16, b: u16) -> (r: u16)
    ensures
        r == if a <= b {
            a
        } else {
            b
        },
{
    if a <= b {
        a
    } else {
        b
    }
}

/// Where the header goes in its part of the screen: inside the border at the left
/// and at the top.
pub open spec fn header_area_of(chunk: Rect) -> Rect {
    let right = capped(chunk.x, chunk.width);
    let bottom = capped(chunk.y, chunk.height);
    Rect {
        x: if capped(chunk.x, 1) <= right {
            capped(chunk.x, 1)
        } else {
            right
        },
        y: if capped(chunk.y, 1) <= bottom {
            capped(chunk.y, 1)
        } else {
            bottom
        },
        width: if chunk.width == 0 {
            0
        } else {
            (chunk.width - 1) as u16
        },
        height: if chunk.height == 0 {
            0
        } else {
            (chunk.height - 1) as u16
        },
    }
}

/// Where the header goes in its part of the screen.
pub fn header_area(chunk: Rect) -> (r: Rect)
    ensures
        r == header_area_of(chunk),
{
    let right: u16 = chunk.x.saturating_add(chunk.width);
    let bottom: u16 = chunk.y.saturating_add(chunk.height);
    Rect {
        x: min(chunk.x.saturating_add(1), right),
        y: min(chunk.y.saturating_add(1), bottom),
        width: chunk.width.saturating_sub(1),
        height: chunk.height.saturating_sub(1),
    }
}

/// The titles of the columns, each as wide as its column. The first leaves room
/// for the mark of the selected row.
pub fn header_cells() -> (r: [String; 5])
    ensures
        r[0]@ == "   "@ + padded("name"@, 10),
        r[1]@ == padded("status"@, 12),
        r[2]@ == padded("active_conn"@, 12),
        r[3]@ == padded("conn_time"@, 12),
        r[4]@ == padded("proto"@, 12),
{
    [
        followed_by("   ", pad_right("name", 10).as_str()),
        pad_right("status", 12),
        pad_right("active_conn", 12),
        pad_right("conn_time", 12),
        pad_right("proto", 12),
    ]
}

/// The colour of a backend's name.
#[derive(Clone, Copy, PartialEq, Eq, Structural, Debug)]
pub enum StatusColor {
    Green,
    Red,
    Yellow,
    Magenta,
}

/// The colour for a status.
pub open spec fn color_of(status: BackendStatus) -> StatusColor {
    match status {
        BackendStatus::Normal => StatusColor::Green,
        BackendStatus::Closed => StatusColor::Red,
        BackendStatus::Unknown => StatusColor::Yellow,
        BackendStatus::ForceClosed => StatusColor::Magenta,
    }
}

/// The colour for a status.
pub fn status_color(status: BackendStatus) -> (r: StatusColor)
    ensures
        r == color_of(status),
{
    match status {
        BackendStatus::Normal => StatusColor::Green,
        BackendStatus::Closed => StatusColor::Red,
        BackendStatus::Unknown => StatusColor::Yellow,
        BackendStatus::ForceClosed => StatusColor::Magenta,
    }
}

/// One backend in the list: its cells, the colour of its name, and whether it is
/// crossed out. An empty line comes below.
pub struct Row {
    pub cells: [String; 5],
    pub color: StatusColor,
    pub crossed_out: bool,
    pub below: String,
}

/// The text of a time to connect.
pub open spec fn millis_text(time: Duration) -> Seq<char> {
    decimal(time.millis()) + "ms"@
}

/// Whether a row shows a backend, crossed out or not, in a list of a width.
pub open spec fn row_shows(
    row: Row,
    name: Seq<char>,
    data: MetricView,
    crossed_out: bool,
    width: u16,
) -> bool {
    &&& row.cells[0]@ == padded(name, 10)
    &&& row.cells[1]@ == padded(data.status.name(), 12)
    &&& row.cells[2]@ == padded(decimal(data.active_connections), 12)
    &&& row.cells[3]@ == padded(millis_text(data.connection_time), 12)
    &&& row.cells[4]@ == padded(data.protocol.name(), 12)
    &&& row.color == color_of(data.status)
    &&& row.crossed_out == crossed_out
    &&& row.below@ == spaces(width as nat)
}

/// The row of a backend.
pub fn backend_row(backend: &BackendMetric, crossed_out: bool, width: u16) -> (r: Row)
    ensures
        row_shows(r, backend.backend_name@, backend.metric@, crossed_out, width),
{
    let millis = decimal_text(backend.metric.connection_time.as_millis());
    let connections = decimal_text(backend.metric.active_connections as u128);
    Row {
        cells: [
            pad_right(backend.backend_name.as_str(), 10),
            backend.metric.status.text(),
            pad_right(connections.as_str(), 12),
            pad_right(followed_by(millis.as_str(), "ms").as_str(), 12),
            backend.metric.protocol.text(),
        ],
        color: status_color(backend.metric.status),
        crossed_out,
        below: blank(width as usize),
    }
}

/// The rows of all backends, in order, in a list of a width. The one that a
/// request is on its way about is crossed out.
pub fn backend_rows(app: &App, width: u16) -> (r: Vec<Row>)
    ensures
        r@.len() == app.backends@.len(),
        forall|i: int|
            0 <= i < r@.len() ==> row_shows(
                #[trigger] r@[i],
                app.backends@[i].backend_name@,
                app.backends@[i].metric@,
                app.fetcher.waiting() && app.fetcher.waiting_on() == i,
                width,
            ),
{
    let is_pending: bool = app.fetcher.is_pending();
    let pending_id: usize = app.fetcher.get_pending_on_id();
    let mut r: Vec<Row> = Vec::new();
    let mut i: usize = 0;
    while i < app.backends.len()
        invariant
            i <= app.backends@.len(),
            r@.len() == i,
            is_pending == app.fetcher.waiting(),
            pending_id == app.fetcher.waiting_on(),
            forall|k: int|
                0 <= k < i ==> row_shows(
                    #[trigger] r@[k],
                    app.backends@[k].backend_name@,
                    app.backends@[k].metric@,
                    app.fetcher.waiting() && app.fetcher.waiting_on() == k,
                    width,
                ),
        decreases app.backends@.len() - i,
    {
        r.push(backend_row(&app.backends[i], is_pending && pending_id == i, width));
        i = i + 1;
    }
    r
}

/// How many backends are up.
pub open spec fn up_count(backends: Seq<BackendMetric>) -> nat
    decreases backends.len(),
{
    if backends.len() == 0 {
        0
    } else {
        up_count(backends.drop_last()) + if backends.last().metric.status is Normal {
            1nat
        } else {
            0
        }
    }
}

/// The text at the top: how many backends are up.
pub fn top_bar(app: &App) -> (r: String)
    ensures
        r@ == "available backends : "@ + decimal(up_count(app.backends@)),
{
    let mut count: usize = 0;
    let mut i: usize = 0;
    assert(app.backends@.take(0) =~= Seq::empty());
    while i < app.backends.len()
        invariant
            i <= app.backends@.len(),
            count <= i,
            count == up_count(app.backends@.take(i as int)),
        decreases app.backends@.len() - i,
    {
        assert(app.backends@.take(i + 1).drop_last() =~= app.backends@.take(i as int));
        assert(app.backends@.take(i + 1).last() == app.backends@[i as int]);
        if let BackendStatus::Normal = app.backends[i].metric.status {
            count = count + 1;
        }
        i = i + 1;
    }
    assert(app.backends@.take(i as int) =~= app.backends@);
    followed_by("available backends : ", decimal_text(count as u128).as_str())
}

/// The height of the log: none where there is nothing to show.
pub fn log_height(app: &App) -> (r: u16)
    ensures
        r == if app.log_text@.len() == 0 {
            0u16
        } else {
            4u16
        },
{
    if app.log_text.as_str().unicode_len() == 0 {
        0
    } else {
        4
    }
}

/// The header keeps within its part of the screen.
pub proof fn law_header_fits(chunk: Rect)
    requires
        chunk.x + chunk.width <= u16::MAX,
        chunk.y + chunk.height <= u16::MAX,
    ensures
        ({
            let area = header_area_of(chunk);
            &&& chunk.x <= area.x
            &&& area.x + area.width <= chunk.x + chunk.width
            &&& chunk.y <= area.y
            &&& area.y + area.height <= chunk.y + chunk.height
        }),
{
}

/// The header stands one below and one to the right of the corner of its part of the screen,
/// and takes up all that is left of it.
pub proof fn law_header_inside_the_border(chunk: Rect, area: Rect)
    requires
        call_ensures(header_area, (chunk,), area),
        chunk.width > 0,
        chunk.height > 0,
        chunk.x + chunk.width <= 0xffff,
        chunk.y + chunk.height <= 0xffff,
    ensures
        area.x == chunk.x + 1,
        area.y == chunk.y + 1,
        area.x + area.width == chunk.x + chunk.width,
        area.y + area.height == chunk.y + chunk.height,
{
}

/// Each status has a colour of its own, green for a backend that is up and red for one that is
/// down.
pub proof fn law_colour_of_each_status(
    a: BackendStatus,
    b: BackendStatus,
    x: StatusColor,
    y: StatusColor,
)
    requires
        call_ensures(status_color, (a,), x),
        call_ensures(status_color, (b,), y),
    ensures
        x == y ==> a == b,
        x is Green <==> a is Normal,
        x is Red <==> a is Closed,
        x is Magenta <==> a is ForceClosed,
{
}

/// The cells of a row begin with what they show of the backend: its name, its status, how many
/// connections it has, the milliseconds that the last one took to connect, and its protocol.
/// They are as wide as their columns where that fits.
pub proof fn law_cells_of_a_row(backend: &BackendMetric, crossed_out: bool, width: u16, row: Row, i: int)
    requires
        call_ensures(backend_row, (backend, crossed_out, width), row),
    ensures
        row.crossed_out == crossed_out,
        row.below@.len() == width,
        0 <= i < width ==> row.below@[i] == ' ',
        backend.backend_name@.len() <= 10 ==> row.cells[0]@.len() == 10,
        0 <= i < backend.backend_name@.len() ==> row.cells[0]@[i] == backend.backend_name@[i],
        backend.backend_name@.len() <= i < row.cells[0]@.len() ==> row.cells[0]@[i] == ' ',
        ({
            let count = decimal(backend.metric.active_connections as nat);
            &&& count.len() <= 12 ==> row.cells[2]@.len() == 12
            &&& 0 <= i < count.len() ==> row.cells[2]@[i] == count[i]
            &&& count.len() <= i < row.cells[2]@.len() ==> row.cells[2]@[i] == ' '
        }),
        ({
            let millis = decimal(
                (backend.metric.connection_time.secs * 1000 + backend.metric.connection_time.nanos
                    as int / 1_000_000) as nat,
            );
            &&& 0 <= i < millis.len() ==> row.cells[3]@[i] == millis[i]
            &&& row.cells[3]@[millis.len() as int] == 'm'
            &&& row.cells[3]@[millis.len() as int + 1] == 's'
            &&& millis.len() + 2 <= i < row.cells[3]@.len() ==> row.cells[3]@[i] == ' '
        }),
        row.cells[1]@.len() == 12,
        backend.metric.status is Normal ==> row.cells[1]@[0] == 'N' && row.color is Green,
        backend.metric.status is Closed ==> row.cells[1]@[0] == 'C' && row.color is Red,
        backend.metric.status is Unknown ==> row.cells[1]@[0] == 'U' && row.color is Yellow,
        backend.metric.status is ForceClosed ==> row.cells[1]@[0] == 'F' && row.color is Magenta,
        row.cells[4]@.len() == 12,
        backend.metric.protocol is HTTP2 ==> row.cells[4]@[0] == 'h',
        backend.metric.protocol is Quic ==> row.cells[4]@[0] == 'q',
{
    reveal_strlit("NORMAL");
    reveal_strlit("CLOSED");
    reveal_strlit("UNKNOWN");
    reveal_strlit("FORCECLOSED");
    reveal_strlit("http2");
    reveal_strlit("quic");
    reveal_strlit("ms");
}

/// There is a row for each backend, at its place, and only the one that a request is on its way
/// about is crossed out.
pub proof fn law_rows_of_the_backends(
    app: &App,
    width: u16,
    rows: Vec<Row>,
    k: int,
    row: Row,
    crossed_out: bool,
)
    requires
        call_ensures(backend_rows, (app, width), rows),
        0 <= k < app.backends@.len(),
        call_ensures(backend_row, (&app.backends@[k], crossed_out, width), row),
    ensures
        rows@.len() == app.backends@.len(),
        rows@[k].crossed_out <==> app.fetcher.waiting() && app.fetcher.waiting_on() == k,
        rows@[k].color == row.color,
        rows@[k].cells[0]@ == row.cells[0]@,
        rows@[k].cells[1]@ == row.cells[1]@,
        rows@[k].cells[2]@ == row.cells[2]@,
        rows@[k].cells[3]@ == row.cells[3]@,
        rows@[k].cells[4]@ == row.cells[4]@,
        rows@[k].below@ == row.below@,
{
    assert(row_shows(
        rows@[k],
        app.backends@[k].backend_name@,
        app.backends@[k].metric@,
        app.fetcher.waiting() && app.fetcher.waiting_on() == k,
        width,
    ));
}

/// The number at the top grows by one for a backend more that is up and stays for one that is
/// not. It is that of all backends where all are up, and zero where none is.
pub proof fn law_number_at_the_top(app: &App, longer: &App, x: String, y: String, n: nat)
    requires
        call_ensures(top_bar, (app,), x),
        call_ensures(top_bar, (longer,), y),
        longer.backends@.len() == app.backends@.len() + 1,
        longer.backends@.drop_last() == app.backends@,
        x@ == "available backends : "@ + decimal(n),
    ensures
        longer.backends@.last().metric.status is Normal ==> y@ == "available backends : "@
            + decimal(n + 1),
        !(longer.backends@.last().metric.status is Normal) ==> y@ == x@,
        app.backends@.len() == 0 ==> n == 0,
{
    let head = "available backends : "@;
    let up = up_count(app.backends@);
    assert((head + decimal(up)).skip(head.len() as int) =~= decimal(up));
    assert((head + decimal(n)).skip(head.len() as int) =~= decimal(n));
    law_decimal_denotes_its_number(up);
    law_decimal_denotes_its_number(n);
    assert(up == n);
}

/// The log takes up room exactly where there is something to show.
pub proof fn law_room_for_the_log(app: &App, r: u16)
    requires
        call_ensures(log_height, (app,), r),
    ensures
        r == 0 <==> app.log_text@.len() == 0,
        r == 0 || r == 4,
{
}

} // verus!
