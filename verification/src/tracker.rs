//! Cutting the time spent in each focused window into rows.
//!
//! The tracker is driven by recorded input events. On each event recorded
//! from the server it takes over the newest title that was reported, and
//! either extends the current stretch of time or closes it as a row
//! `(title, start, end)` with RFC 3339 instants. Rows are handed out to be
//! saved in batches.

use vstd::prelude::*;
use vstd::utf8::decode_utf8;
use vstd::utf8::valid_utf8;
use crate::record::FROM_SERVER;
use crate::stamp::{rfc3339_text, Stamp};
use crate::text::{focused_title, uninitialized_title, utf8_lossy_text};

verus! {

/// A stretch in which no event came for more than this many whole seconds is
/// cut at its start plus this many seconds.
pub const IDLE_LIMIT_SECS: u64 = 10;

/// Rows are handed out to be saved once this many have gathered.
pub const SAVE_BATCH: usize = 10;

/// Nanoseconds in a second, for readings of the monotonic clock.
pub const NANOS_PER_SEC: u64 = 1_000_000_000;

/// A row as text: window title, start and end of the stretch.
pub type RowView = (Seq<char>, Seq<char>, Seq<char>);

/// The text of a row.
pub open spec fn row_view(row: (String, String, String)) -> RowView {
    (row.0@, row.1@, row.2@)
}

/// The text of a list of rows.
pub open spec fn rows_view(rows: Seq<(String, String, String)>) -> Seq<RowView> {
    rows.map_values(|row: (String, String, String)| row_view(row))
}

/// The text of a batch handed out for saving, if any.
pub open spec fn saved_view(saved: Option<Vec<(String, String, String)>>) -> Option<Seq<RowView>> {
    match saved {
        Some(rows) => Some(rows_view(rows@)),
        None => None,
    }
}

/// The text of a title that may have been reported.
pub open spec fn received_view(received: Option<String>) -> Option<Seq<char>> {
    match received {
        Some(title) => Some(title@),
        None => None,
    }
}

/// The tracker's state as plain values.
pub struct TrackerView {
    /// The title of the window that the current stretch belongs to.
    pub prev: Seq<char>,
    /// The newest title reported.
    pub current: Seq<char>,
    /// When the current stretch began.
    pub start: Stamp,
    /// The monotonic clock, in nanoseconds, at the last event handled.
    pub counter: u64,
    /// Rows that wait to be saved.
    pub rows: Seq<RowView>,
}

impl TrackerView {
    /// The start is a tracked instant, and fewer than a batch of rows wait.
    pub open spec fn wf(self) -> bool {
        &&& self.start.wf()
        &&& self.rows.len() < SAVE_BATCH
    }
}

/// Whole seconds from the monotonic reading `mark` to `now`; zero when `now`
/// is earlier, as a saturating elapsed time is.
pub open spec fn elapsed_secs(mark: u64, now: u64) -> int {
    if now >= mark {
        (now - mark) / (NANOS_PER_SEC as int)
    } else {
        0
    }
}

/// More than [`IDLE_LIMIT_SECS`] whole seconds passed since the last event.
pub open spec fn idle(mark: u64, now: u64) -> bool {
    elapsed_secs(mark, now) > IDLE_LIMIT_SECS
}

/// The title in force once the reported title, if any, is taken over.
pub open spec fn title_after(v: TrackerView, received: Option<Seq<char>>) -> Seq<char> {
    match received {
        Some(title) => title,
        None => v.current,
    }
}

/// The instant at which an idle stretch is cut: ten seconds after its start,
/// seen at `end_offset`, the local offset in force at that instant.
pub open spec fn idle_end(v: TrackerView, end_offset: i32) -> Stamp {
    v.start.shifted(IDLE_LIMIT_SECS as i64, end_offset)
}

/// The row that an event from the server closes, if any.
///
/// - Same window, idle: the stretch is closed ten seconds after its start.
/// - Same window, busy: the stretch goes on; no row.
/// - Other window, idle: the old window's stretch is closed ten seconds after
///   its start.
/// - Other window, busy: the old window's stretch is closed now.
pub open spec fn closed_row(
    v: TrackerView,
    current: Seq<char>,
    mono_now: u64,
    now: Stamp,
    end_offset: i32,
) -> Option<RowView> {
    if v.prev == current {
        if idle(v.counter, mono_now) {
            Some((current, v.start.text(), idle_end(v, end_offset).text()))
        } else {
            None
        }
    } else if idle(v.counter, mono_now) {
        Some((v.prev, v.start.text(), idle_end(v, end_offset).text()))
    } else {
        Some((v.prev, v.start.text(), now.text()))
    }
}

/// The rows waiting after `row`, if any, was added.
pub open spec fn gathered(v: TrackerView, row: Option<RowView>) -> Seq<RowView> {
    match row {
        Some(r) => v.rows.push(r),
        None => v.rows,
    }
}

/// One recorded event: the next state and the batch handed out for saving.
///
/// Events of another category than [`FROM_SERVER`] change nothing. For one
/// from the server, the reported title is taken over, the row it closes (see
/// [`closed_row`]) is added, a new stretch begins now when a row was closed,
/// the monotonic mark is reset, and once a batch of rows has gathered it is
/// handed out and the tracker keeps none.
pub open spec fn step(
    v: TrackerView,
    category: u8,
    received: Option<Seq<char>>,
    mono_now: u64,
    now: Stamp,
    end_offset: i32,
) -> (TrackerView, Option<Seq<RowView>>) {
    if category != FROM_SERVER {
        (v, None)
    } else {
        let current = title_after(v, received);
        let row = closed_row(v, current, mono_now, now, end_offset);
        let rows = gathered(v, row);
        let full = rows.len() >= SAVE_BATCH;
        (
            TrackerView {
                prev: current,
                current: current,
                start: if row is Some { now } else { v.start },
                counter: mono_now,
                rows: if full { Seq::empty() } else { rows },
            },
            if full { Some(rows) } else { None },
        )
    }
}

/// Time spent in focused windows, cut into rows.
pub struct WindowTracker {
    prev_title: String,
    current_title: String,
    start: Stamp,
    counter: u64,
    rows: Vec<(String, String, String)>,
}

impl View for WindowTracker {
    type V = TrackerView;

    closed spec fn view(&self) -> TrackerView {
        TrackerView {
            prev: self.prev_title@,
            current: self.current_title@,
            start: self.start,
            counter: self.counter,
            rows: rows_view(self.rows@),
        }
    }
}

/// Whole seconds elapsed on the monotonic clock from `mark` to `now`.
fn elapsed_whole_secs(mark: u64, now: u64) -> (r: u64)
    ensures
        r == elapsed_secs(mark, now),
{
    if now >= mark {
        (now - mark) / NANOS_PER_SEC
    } else {
        0
    }
}

impl WindowTracker {
    /// A tracker whose first stretch begins at `now` in the window that has
    /// the focus: its title is read from the `WM_NAME` property when the
    /// server answered, else it is `<uninitialized window>`.
    pub fn new(focused: Option<&[u8]>, now: Stamp, mono_now: u64) -> (t: WindowTracker)
        requires
            now.wf(),
        ensures
            t@.wf(),
            t@.prev == t@.current,
            t@.current == match focused {
                Some(bytes) => utf8_lossy_text(bytes@),
                None => uninitialized_title(),
            },
            focused matches Some(bytes) ==> (valid_utf8(bytes@) ==> t@.current == decode_utf8(bytes@)),
            t@.start == now,
            t@.counter == mono_now,
            t@.rows == Seq::<RowView>::empty(),
    {
        let title = focused_title(focused);
        let rows: Vec<(String, String, String)> = Vec::new();
        let t = WindowTracker {
            prev_title: title.clone(),
            current_title: title,
            start: now,
            counter: mono_now,
            rows,
        };
        assert(t@.rows =~= Seq::<RowView>::empty());
        t
    }

    /// Handles one recorded event. `category` is the record's category,
    /// `received` the newest window title reported since the last event,
    /// `mono_now` the monotonic clock in nanoseconds, `now` the wall clock,
    /// and `end_offset` the local UTC offset in force ten seconds after the
    /// current stretch's start (see [`WindowTracker::start`]), where an idle
    /// stretch is cut. Returns the batch of rows to be saved, if one is full.
    pub fn handle_event(
        &mut self,
        category: u8,
        received: Option<String>,
        mono_now: u64,
        now: Stamp,
        end_offset: i32,
    ) -> (saved: Option<Vec<(String, String, String)>>)
        requires
            old(self)@.wf(),
            now.wf(),
            -86_400 < end_offset < 86_400,
        ensures
            final(self)@.wf(),
            (final(self)@, saved_view(saved)) == step(
                old(self)@,
                category,
                received_view(received),
                mono_now,
                now,
                end_offset,
            ),
    {
        if category != FROM_SERVER {
            return None;
        }
        let ghost v0 = self@;
        match received {
            Some(title) => {
                self.current_title = title;
            },
            None => {},
        }
        let is_idle = elapsed_whole_secs(self.counter, mono_now) > IDLE_LIMIT_SECS;
        let ghost old_rows = self.rows@;
        if self.prev_title == self.current_title {
            if is_idle {
                let end = self.start.plus_seconds(10, end_offset);
                let row = (self.current_title.clone(), self.start.to_rfc3339(), end.to_rfc3339());
                self.rows.push(row);
                self.start = now;
            }
        } else {
            let end_text = if is_idle {
                self.start.plus_seconds(10, end_offset).to_rfc3339()
            } else {
                now.to_rfc3339()
            };
            let row = (self.prev_title.clone(), self.start.to_rfc3339(), end_text);
            self.rows.push(row);
            self.start = now;
            self.prev_title = self.current_title.clone();
        }
        self.counter = mono_now;
        proof {
            if self.rows@.len() > old_rows.len() {
                assert(rows_view(self.rows@) =~= rows_view(old_rows).push(
                    row_view(self.rows@.last()),
                ));
            } else {
                assert(self.rows@ == old_rows);
            }
        }
        if self.rows.len() >= SAVE_BATCH {
            let mut saved: Vec<(String, String, String)> = Vec::new();
            core::mem::swap(&mut saved, &mut self.rows);
            assert(rows_view(self.rows@) =~= Seq::<RowView>::empty());
            Some(saved)
        } else {
            None
        }
    }

    /// The title of the window that the current stretch belongs to.
    pub fn prev_title(&self) -> (title: &String)
        ensures
            title@ == self@.prev,
    {
        &self.prev_title
    }

    /// The newest title reported.
    pub fn current_title(&self) -> (title: &String)
        ensures
            title@ == self@.current,
    {
        &self.current_title
    }

    /// When the current stretch began.
    pub fn start(&self) -> (start: Stamp)
        ensures
            start == self@.start,
    {
        self.start
    }

    /// The rows that wait to be saved.
    pub fn pending_rows(&self) -> (rows: &Vec<(String, String, String)>)
        ensures
            rows_view(rows@) == self@.rows,
    {
        &self.rows
    }
}

/// Every step keeps the tracker well formed: its start stays a tracked
/// instant and fewer than a batch of rows wait.
pub proof fn law_step_keeps_wf(v: TrackerView, category: u8, received: Option<Seq<char>>, mono_now: u64, now: Stamp, end_offset: i32)
    requires
        v.wf(),
        now.wf(),
    ensures
        step(v, category, received, mono_now, now, end_offset).0.wf(),
{
}

/// A batch handed out for saving always holds exactly [`SAVE_BATCH`] rows.
pub proof fn law_saved_batch_is_full(v: TrackerView, category: u8, received: Option<Seq<char>>, mono_now: u64, now: Stamp, end_offset: i32)
    requires
        v.wf(),
    ensures
        step(v, category, received, mono_now, now, end_offset).1 matches Some(batch) ==> batch.len() == SAVE_BATCH,
{
}

/// No row is lost or made up: the batch handed out, if any, followed by the
/// rows still waiting, is the rows that waited before followed by the row
/// that the event closed, if any.
pub proof fn law_rows_conserved(v: TrackerView, category: u8, received: Option<Seq<char>>, mono_now: u64, now: Stamp, end_offset: i32)
    ensures
        ({
            let (next, saved) = step(v, category, received, mono_now, now, end_offset);
            let before = if category == FROM_SERVER {
                gathered(v, closed_row(v, title_after(v, received), mono_now, now, end_offset))
            } else {
                v.rows
            };
            match saved {
                Some(batch) => batch + next.rows == before,
                None => next.rows == before,
            }
        }),
{
    let (next, saved) = step(v, category, received, mono_now, now, end_offset);
    if let Some(batch) = saved {
        assert(batch + next.rows =~= batch);
    }
}

/// An event closes at most one row.
pub proof fn law_at_most_one_row(v: TrackerView, category: u8, received: Option<Seq<char>>, mono_now: u64, now: Stamp, end_offset: i32)
    ensures
        ({
            let (next, saved) = step(v, category, received, mono_now, now, end_offset);
            let handed = match saved { Some(batch) => batch.len(), None => 0 };
            handed + next.rows.len() <= v.rows.len() + 1
        }),
{
}

/// Records of another category than [`FROM_SERVER`] leave the tracker as it
/// was and hand nothing out.
pub proof fn law_other_categories_ignored(v: TrackerView, category: u8, received: Option<Seq<char>>, mono_now: u64, now: Stamp, end_offset: i32)
    requires
        category != 0,
    ensures
        step(v, category, received, mono_now, now, end_offset) == (v, None::<Seq<RowView>>),
{
}

/// After an event from the server the tracker follows the newest title, in
/// both of its titles, and measures idleness from this event on.
pub proof fn law_follows_newest_title(v: TrackerView, received: Option<Seq<char>>, mono_now: u64, now: Stamp, end_offset: i32)
    ensures
        ({
            let next = step(v, FROM_SERVER, received, mono_now, now, end_offset).0;
            &&& next.prev == title_after(v, received)
            &&& next.current == title_after(v, received)
            &&& next.counter == mono_now
        }),
{
}

/// A closed row begins where the stretch began, belongs to the window that
/// the stretch belonged to, and a new stretch begins at `now` exactly when a
/// row was closed.
pub proof fn law_row_opens_at_stretch_start(v: TrackerView, received: Option<Seq<char>>, mono_now: u64, now: Stamp, end_offset: i32)
    ensures
        ({
            let row = closed_row(v, title_after(v, received), mono_now, now, end_offset);
            let next = step(v, FROM_SERVER, received, mono_now, now, end_offset).0;
            &&& row matches Some(r) ==> r.0 == v.prev && r.1 == v.start.text()
            &&& next.start == if row is Some { now } else { v.start }
        }),
{
}

/// Switching windows within the idle limit closes the old window's row at
/// `now`, where the new window's stretch begins: the two rows meet.
pub proof fn law_quick_switch_rows_meet(v: TrackerView, received: Option<Seq<char>>, mono_now: u64, now: Stamp, end_offset: i32)
    requires
        title_after(v, received) != v.prev,
        !idle(v.counter, mono_now),
    ensures
        ({
            let row = closed_row(v, title_after(v, received), mono_now, now, end_offset);
            let next = step(v, FROM_SERVER, received, mono_now, now, end_offset).0;
            &&& row matches Some(r) && r.2 == next.start.text()
            &&& next.start == now
        }),
{
}

/// Staying in one window with events less than the idle limit apart closes
/// no row and keeps the stretch's start.
pub proof fn law_busy_window_keeps_stretch(v: TrackerView, mono_now: u64, now: Stamp, end_offset: i32)
    requires
        v.wf(),
        v.prev == v.current,
        !idle(v.counter, mono_now),
    ensures
        ({
            let (next, saved) = step(v, FROM_SERVER, None, mono_now, now, end_offset);
            &&& next.start == v.start
            &&& next.rows == v.rows
            &&& saved is None
        }),
{
}

/// The text of a list of rows has one entry per row: the row's title, start
/// and end as text, in order.
pub proof fn law_rows_view_entries(rows: Seq<(String, String, String)>)
    ensures
        rows_view(rows).len() == rows.len(),
        forall|i: int| 0 <= i < rows.len() ==> #[trigger] rows_view(rows)[i] == (rows[i].0@, rows[i].1@, rows[i].2@),
{
}

/// A batch handed out is seen as the text of its rows, and no batch as
/// none; a reported title is seen as its text, and no title as none.
pub proof fn law_batch_and_title_views(rows: Vec<(String, String, String)>, title: String)
    ensures
        saved_view(Some(rows)) == Some(rows_view(rows@)),
        saved_view(None) == None::<Seq<RowView>>,
        received_view(Some(title)) == Some(title@),
        received_view(None) == None::<Seq<char>>,
{
}

/// Staying in one window after more than ten whole seconds without events
/// (on the monotonic clock, in nanoseconds) cuts the stretch: the row is the
/// window's title, the start's text, and the text of the start plus ten
/// seconds at `end_offset`; a new stretch begins at `now`. The row joins
/// those waiting, and once ten or more wait they are all handed out.
pub proof fn law_idle_window_is_cut(v: TrackerView, received: Option<Seq<char>>, mono_now: u64, now: Stamp, end_offset: i32)
    requires
        received is None || received == Some(v.current),
        v.prev == v.current,
        mono_now >= v.counter,
        (mono_now - v.counter) / 1_000_000_000int > 10,
    ensures
        ({
            let (next, saved) = step(v, 0, received, mono_now, now, end_offset);
            let row = (
                v.current,
                rfc3339_text(v.start.secs, v.start.nanos, v.start.offset),
                rfc3339_text((v.start.secs + 10) as i64, v.start.nanos, end_offset),
            );
            let waiting = v.rows.push(row);
            &&& next.prev == v.current
            &&& next.current == v.current
            &&& next.start == now
            &&& next.counter == mono_now
            &&& waiting.len() >= 10 ==> saved == Some(waiting) && next.rows.len() == 0
            &&& waiting.len() < 10 ==> saved is None && next.rows == waiting
        }),
{
}

/// Staying in one window with at most ten whole seconds since the last
/// event (or a monotonic clock that went back) closes no row, keeps the
/// stretch's start and hands nothing out; only the mark moves to `mono_now`.
pub proof fn law_busy_window_goes_on(v: TrackerView, received: Option<Seq<char>>, mono_now: u64, now: Stamp, end_offset: i32)
    requires
        received is None || received == Some(v.current),
        v.prev == v.current,
        v.rows.len() < 10,
        mono_now < v.counter || (mono_now - v.counter) / 1_000_000_000int <= 10,
    ensures
        step(v, 0, received, mono_now, now, end_offset) == (
            TrackerView { prev: v.prev, current: v.current, start: v.start, counter: mono_now, rows: v.rows },
            None::<Seq<RowView>>,
        ),
{
}

/// Switching to another window `title` after more than ten whole seconds
/// without events closes the old window's stretch ten seconds after its
/// start, at `end_offset`; the tracker then follows `title` from `now`.
pub proof fn law_idle_switch_is_cut(v: TrackerView, title: Seq<char>, received: Option<Seq<char>>, mono_now: u64, now: Stamp, end_offset: i32)
    requires
        received == Some(title) || (received is None && title == v.current),
        title != v.prev,
        mono_now >= v.counter,
        (mono_now - v.counter) / 1_000_000_000int > 10,
    ensures
        ({
            let (next, saved) = step(v, 0, received, mono_now, now, end_offset);
            let row = (
                v.prev,
                rfc3339_text(v.start.secs, v.start.nanos, v.start.offset),
                rfc3339_text((v.start.secs + 10) as i64, v.start.nanos, end_offset),
            );
            let waiting = v.rows.push(row);
            &&& next.prev == title
            &&& next.current == title
            &&& next.start == now
            &&& next.counter == mono_now
            &&& waiting.len() >= 10 ==> saved == Some(waiting) && next.rows.len() == 0
            &&& waiting.len() < 10 ==> saved is None && next.rows == waiting
        }),
{
}

/// Switching to another window `title` with at most ten whole seconds since
/// the last event (or a monotonic clock that went back) closes the old
/// window's stretch at `now`; the tracker then follows `title` from `now`.
pub proof fn law_busy_switch_is_cut_now(v: TrackerView, title: Seq<char>, received: Option<Seq<char>>, mono_now: u64, now: Stamp, end_offset: i32)
    requires
        received == Some(title) || (received is None && title == v.current),
        title != v.prev,
        mono_now < v.counter || (mono_now - v.counter) / 1_000_000_000int <= 10,
    ensures
        ({
            let (next, saved) = step(v, 0, received, mono_now, now, end_offset);
            let row = (
                v.prev,
                rfc3339_text(v.start.secs, v.start.nanos, v.start.offset),
                rfc3339_text(now.secs, now.nanos, now.offset),
            );
            let waiting = v.rows.push(row);
            &&& next.prev == title
            &&& next.current == title
            &&& next.start == now
            &&& next.counter == mono_now
            &&& waiting.len() >= 10 ==> saved == Some(waiting) && next.rows.len() == 0
            &&& waiting.len() < 10 ==> saved is None && next.rows == waiting
        }),
{
}

} // verus!
