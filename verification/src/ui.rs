use vstd::prelude::*;
use std::collections::HashMap;
use crate::clock::{
    clock_label, elapsed_seconds, names_minute_of, spec_clock_text, spec_elapsed_seconds,
    NANOS_PER_SECOND,
};
use crate::types::{Notification, NotificationUrgency};

verus! {

broadcast use vstd::std_specs::hash::group_hash_axioms;

/// The style class of a row for each urgency level.
pub open spec fn spec_urgency_class(urgency: NotificationUrgency) -> Seq<char> {
    match urgency {
        NotificationUrgency::Low => "urgency-low"@,
        NotificationUrgency::Normal => "urgency-normal"@,
        NotificationUrgency::Critical => "urgency-critical"@,
    }
}

/// The style class of a row for an urgency level.
pub fn urgency_class(urgency: NotificationUrgency) -> (class: String)
    ensures
        class@ == spec_urgency_class(urgency),
{
    match urgency {
        NotificationUrgency::Low => String::from_str("urgency-low"),
        NotificationUrgency::Normal => String::from_str("urgency-normal"),
        NotificationUrgency::Critical => String::from_str("urgency-critical"),
    }
}

/// The character of a decimal digit.
pub open spec fn digit_char(d: nat) -> char {
    if d == 0 {
        '0'
    } else if d == 1 {
        '1'
    } else if d == 2 {
        '2'
    } else if d == 3 {
        '3'
    } else if d == 4 {
        '4'
    } else if d == 5 {
        '5'
    } else if d == 6 {
        '6'
    } else if d == 7 {
        '7'
    } else if d == 8 {
        '8'
    } else {
        '9'
    }
}

/// The decimal writing of `n`, without leading zeros.
pub open spec fn decimal(n: nat) -> Seq<char>
    decreases n,
{
    if n < 10 {
        seq![digit_char(n)]
    } else {
        decimal(n / 10) + seq![digit_char(n % 10)]
    }
}

/// The number that a string of decimal digits stands for.
pub open spec fn digits_value(s: Seq<char>) -> int
    decreases s.len(),
{
    if s.len() == 0 {
        0
    } else {
        10 * digits_value(s.drop_last()) + (s.last() as int - '0' as int)
    }
}

/// The digit characters stand for their values.
pub proof fn lemma_digit_char_value(d: nat)
    requires
        d < 10,
    ensures
        '0' <= digit_char(d) <= '9',
        digit_char(d) as int - '0' as int == d,
{
}

/// The decimal writing of a number consists of digits, starts with a non-zero
/// digit unless the number is 0, and reads back as the number.
pub proof fn lemma_decimal_reads_back(n: nat)
    ensures
        forall|i: int| 0 <= i < decimal(n).len() ==> '0' <= #[trigger] decimal(n)[i] <= '9',
        decimal(n)[0] == '0' ==> n == 0,
        digits_value(decimal(n)) == n,
    decreases n,
{
    let s = decimal(n);
    if n < 10 {
        lemma_digit_char_value(n);
        assert(s.drop_last() =~= Seq::<char>::empty());
        assert(digits_value(s) == 10 * digits_value(s.drop_last()) + (s.last() as int - '0' as int));
    } else {
        lemma_decimal_reads_back(n / 10);
        lemma_digit_char_value(n % 10);
        assert(s.drop_last() =~= decimal(n / 10));
        assert(s[0] == decimal(n / 10)[0]);
        assert(s.last() == digit_char(n % 10));
        assert(digits_value(s) == 10 * digits_value(s.drop_last()) + (s.last() as int - '0' as int));
        assert(n == 10 * (n / 10) + n % 10);
        assert forall|i: int| 0 <= i < s.len() implies '0' <= #[trigger] s[i] <= '9' by {
            if i < s.len() - 1 {
                assert(s[i] == decimal(n / 10)[i]);
            }
        }
    }
}

pub(crate) fn digit_str(d: u64) -> (s: &'static str)
    requires
        d < 10,
    ensures
        s@ == seq![digit_char(d as nat)],
{
    proof {
        reveal_strlit("0");
        reveal_strlit("1");
        reveal_strlit("2");
        reveal_strlit("3");
        reveal_strlit("4");
        reveal_strlit("5");
        reveal_strlit("6");
        reveal_strlit("7");
        reveal_strlit("8");
        reveal_strlit("9");
    }
    if d == 0 {
        "0"
    } else if d == 1 {
        "1"
    } else if d == 2 {
        "2"
    } else if d == 3 {
        "3"
    } else if d == 4 {
        "4"
    } else if d == 5 {
        "5"
    } else if d == 6 {
        "6"
    } else if d == 7 {
        "7"
    } else if d == 8 {
        "8"
    } else {
        "9"
    }
}

/// Writes `n` in decimal.
pub fn decimal_string(n: u64) -> (s: String)
    ensures
        s@ == decimal(n as nat),
    decreases n,
{
    if n < 10 {
        String::from_str(digit_str(n))
    } else {
        let mut s = decimal_string(n / 10);
        s.append(digit_str(n % 10));
        s
    }
}

/// The text for a notification `elapsed` seconds old: "N seconds ago" under a
/// minute, nothing (the wall-clock time takes over) from a minute on.
pub open spec fn spec_relative_label(elapsed: u64) -> Option<Seq<char>> {
    if elapsed < 60 {
        Some(decimal(elapsed as nat) + " seconds ago"@)
    } else {
        None
    }
}

/// Whether `text` says "`age` seconds ago": a number in decimal digits,
/// without a leading zero, that reads back as `age`, then " seconds ago".
pub open spec fn says_seconds_ago(text: Seq<char>, age: int) -> bool {
    let n = text.len() - 12;
    &&& n >= 1
    &&& text.subrange(n, text.len() as int) == " seconds ago"@
    &&& forall|i: int| 0 <= i < n ==> '0' <= #[trigger] text[i] <= '9'
    &&& (n > 1 ==> text[0] != '0')
    &&& digits_value(text.subrange(0, n)) == age
}

/// Under a minute the age text says exactly how many seconds old the
/// notification is; from a minute on there is none.
pub proof fn lemma_relative_label_says_age(elapsed: u64)
    ensures
        spec_relative_label(elapsed) is Some <==> elapsed < 60,
        elapsed < 60 ==> says_seconds_ago(spec_relative_label(elapsed)->0, elapsed as int),
{
    if elapsed < 60 {
        reveal_strlit(" seconds ago");
        let d = decimal(elapsed as nat);
        let t = d + " seconds ago"@;
        lemma_decimal_reads_back(elapsed as nat);
        assert(t.len() - 12 == d.len());
        assert(t.subrange(0, d.len() as int) =~= d);
        assert(t.subrange(d.len() as int, t.len() as int) =~= " seconds ago"@);
        assert forall|i: int| 0 <= i < d.len() implies '0' <= #[trigger] t[i] <= '9' by {
            assert(t[i] == d[i]);
        }
        if d.len() > 1 {
            assert(t[0] == d[0]);
            if d[0] == '0' {
                assert(elapsed == 0);
                assert(d.len() == 1);
            }
        }
    }
}

/// "N seconds ago" for a notification less than a minute old.
pub fn relative_label(elapsed: u64) -> (text: Option<String>)
    ensures
        text is Some <==> spec_relative_label(elapsed) is Some,
        text matches Some(s) ==> s@ == spec_relative_label(elapsed)->0,
        text is Some <==> elapsed < 60,
        text matches Some(s) ==> says_seconds_ago(s@, elapsed as int),
{
    proof {
        lemma_relative_label_says_age(elapsed);
    }
    if elapsed < 60 {
        let mut s = decimal_string(elapsed);
        s.append(" seconds ago");
        Some(s)
    } else {
        None
    }
}

/// The age text of a notification received at `posted_at` as shown at `now`
/// (both nanoseconds since the Unix epoch), and whether it has to be
/// refreshed again. Under a minute it is "N seconds ago" and keeps being
/// refreshed; from a minute on it is the wall-clock time `HH:MM` of reception
/// in the zone `utc_offset` seconds east of UTC (the local zone's offset at
/// reception, see `local_utc_offset`), and stays; without an offset (an
/// instant with no calendar date) there is no text.
pub fn timestamp_label(posted_at: i128, now: i128, utc_offset: Option<i32>) -> (label: (
    Option<String>,
    bool,
))
    ensures
        label.1 <==> spec_elapsed_seconds(posted_at, now) < 60,
        label.1 ==> (label.0 matches Some(s) && s@ == spec_relative_label(
            spec_elapsed_seconds(posted_at, now),
        )->0),
        label.1 ==> (label.0 matches Some(s) && says_seconds_ago(
            s@,
            spec_elapsed_seconds(posted_at, now) as int,
        )),
        !label.1 ==> (utc_offset matches Some(o) ==> (label.0 matches Some(s) && names_minute_of(
            s@,
            posted_at as int / NANOS_PER_SECOND as int + o,
        ))),
        !label.1 ==> match utc_offset {
            Some(o) => label.0 matches Some(s) && s@ == spec_clock_text(
                posted_at as int / NANOS_PER_SECOND as int + o,
            ),
            None => label.0 is None,
        },
{
    let elapsed = elapsed_seconds(posted_at, now);
    match relative_label(elapsed) {
        Some(text) => (Some(text), true),
        None => match utc_offset {
            Some(o) => (Some(clock_label(posted_at, o)), false),
            None => (None, false),
        },
    }
}

/// How the popup lays out the row of a notification.
pub struct RowPlan {
    /// Style class after the urgency.
    pub urgency_class: String,
    /// A click on the row dismisses it (rows without action buttons).
    pub dismiss_on_click: bool,
    /// Milliseconds after which the row closes by itself.
    pub expiry_ms: Option<u64>,
    /// Image file shown beside the text.
    pub icon_path: Option<String>,
    /// Whether a row of action buttons is shown.
    pub show_actions: bool,
    /// The notification identifier the action buttons report.
    pub action_target: u32,
}

/// The icon a row shows: the notification's icon path unless it is absent or
/// empty.
pub open spec fn spec_icon_path(icon: Option<String>) -> Option<String> {
    match icon {
        Some(p) => if p@.len() == 0 {
            None
        } else {
            Some(p)
        },
        None => None,
    }
}

/// Decides the layout of the row of a notification.
pub fn plan_row(notification: &Notification) -> (plan: RowPlan)
    ensures
        plan.urgency_class@ == spec_urgency_class(notification.urgency),
        plan.dismiss_on_click == (notification.actions@.len() == 0),
        plan.show_actions == (notification.actions@.len() != 0),
        plan.expiry_ms == (if notification.expire_timeout > 0 {
            Some(notification.expire_timeout)
        } else {
            None
        }),
        plan.icon_path == spec_icon_path(notification.icon),
        plan.action_target == (match notification.id {
            Some(id) => id,
            None => 0,
        }),
{
    let icon_path = match &notification.icon {
        Some(p) => if p.as_str().is_empty() {
            None
        } else {
            Some(p.clone())
        },
        None => None,
    };
    RowPlan {
        urgency_class: urgency_class(notification.urgency),
        dismiss_on_click: notification.actions.len() == 0,
        expiry_ms: if notification.expire_timeout > 0 {
            Some(notification.expire_timeout)
        } else {
            None
        },
        icon_path,
        show_actions: notification.actions.len() != 0,
        action_target: match notification.id {
            Some(id) => id,
            None => 0,
        },
    }
}

/// Whether the popup window hides after a row was removed: when no row is left.
pub fn hides_window(remaining_rows: u32) -> (hide: bool)
    ensures
        hide == (remaining_rows == 0),
{
    remaining_rows == 0
}

/// What reaches the popup: a new notification with the row made for it, a
/// close request, or an invoked action.
pub enum PopupEvent<R> {
    Posted { notification_id: Option<u32>, row: R },
    Closed { id: u32 },
    ActionInvoked { id: u32, action_key: String },
}

/// What the popup does after an event: show its window (a notification was
/// posted), dismiss a row, or nothing.
pub enum PopupAction<R> {
    ShowWindow,
    Dismiss(R),
    Nothing,
}

/// The rows on screen by notification identifier.
pub struct RowTracker<R> {
    rows: HashMap<u32, R>,
}

impl<R> RowTracker<R> {
    /// The rows tracked, by notification identifier.
    pub closed spec fn rows_by_id(self) -> Map<u32, R> {
        self.rows@
    }

    /// No row tracked.
    pub fn new() -> (tracker: Self)
        ensures
            tracker.rows_by_id() == Map::<u32, R>::empty(),
    {
        RowTracker { rows: HashMap::new() }
    }

    /// How many rows are tracked.
    pub fn len(&self) -> (n: usize)
        ensures
            n == self.rows_by_id().len(),
    {
        self.rows.len()
    }

    /// Starts tracking `row` under `id`; a notification without identifier is
    /// not tracked. A row tracked before under the same identifier is
    /// forgotten.
    pub fn track(&mut self, id: Option<u32>, row: R)
        ensures
            final(self).rows_by_id() == (match id {
                Some(i) => old(self).rows_by_id().insert(i, row),
                None => old(self).rows_by_id(),
            }),
    {
        if let Some(i) = id {
            self.rows.insert(i, row);
        }
    }

    /// Stops tracking the row of `id` and hands it back, if one was tracked.
    pub fn release(&mut self, id: u32) -> (row: Option<R>)
        ensures
            final(self).rows_by_id() == old(self).rows_by_id().remove(id),
            row == (if old(self).rows_by_id().contains_key(id) {
                Some(old(self).rows_by_id()[id])
            } else {
                None
            }),
    {
        self.rows.remove(&id)
    }

    /// Applies an event to the tracked rows and answers what the popup does:
    /// a posted notification is tracked and shows the window; a close request
    /// or an invoked action dismisses the row of its notification, if tracked,
    /// and does nothing otherwise.
    pub fn on_event(&mut self, event: PopupEvent<R>) -> (action: PopupAction<R>)
        ensures
            match event {
                PopupEvent::Posted { notification_id: id, row } => {
                    &&& action is ShowWindow
                    &&& final(self).rows_by_id() == (match id {
                        Some(i) => old(self).rows_by_id().insert(i, row),
                        None => old(self).rows_by_id(),
                    })
                },
                PopupEvent::Closed { id } | PopupEvent::ActionInvoked { id, .. } => {
                    &&& final(self).rows_by_id() == old(self).rows_by_id().remove(id)
                    &&& action == (if old(self).rows_by_id().contains_key(id) {
                        PopupAction::Dismiss(old(self).rows_by_id()[id])
                    } else {
                        PopupAction::Nothing
                    })
                },
            },
    {
        match event {
            PopupEvent::Posted { notification_id, row } => {
                self.track(notification_id, row);
                PopupAction::ShowWindow
            },
            PopupEvent::Closed { id } => match self.release(id) {
                Some(row) => PopupAction::Dismiss(row),
                None => PopupAction::Nothing,
            },
            PopupEvent::ActionInvoked { id, .. } => match self.release(id) {
                Some(row) => PopupAction::Dismiss(row),
                None => PopupAction::Nothing,
            },
        }
    }
}

/// A row tracked under an identifier is the one a later close of that
/// identifier dismisses, and a second close dismisses nothing.
pub proof fn lemma_close_dismisses_tracked_row<R>(rows: Map<u32, R>, id: u32, row: R)
    ensures
        rows.insert(id, row).contains_key(id),
        rows.insert(id, row)[id] == row,
        !rows.insert(id, row).remove(id).contains_key(id),
        rows.insert(id, row).remove(id) == rows.remove(id),
{
    assert(rows.insert(id, row).remove(id) =~= rows.remove(id));
}

} // verus!
