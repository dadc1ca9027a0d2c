use vstd::prelude::*;
use std::sync::mpsc::Sender;
use crate::types::Notification;
pub use crate::types::NotificationUrgency;

verus! {

#[verifier::external_type_specification]
#[verifier::external_body]
#[verifier::reject_recursive_types(T)]
pub struct ExSender<T>(std::sync::mpsc::Sender<T>);

/// A slot written at most once: the first value stays.
pub open spec fn set_once<T>(slot: Option<T>, value: T) -> Option<T> {
    if slot is None {
        Some(value)
    } else {
        slot
    }
}

/// Once written, a slot keeps its first value whatever is written later.
pub proof fn lemma_first_value_stays<T>(slot: Option<T>, first: T, second: T)
    ensures
        set_once(set_once(slot, first), second) == set_once(slot, first),
        slot is None ==> set_once(set_once(slot, first), second) == Some(first),
{
}

/// The channels towards the popup window, each registered at most once.
pub struct UiChannels {
    action_tx: Option<Sender<(u32, String)>>,
    close_tx: Option<Sender<u32>>,
}

impl UiChannels {
    /// The registered channel for invoked actions, if any.
    pub closed spec fn action_sender(self) -> Option<Sender<(u32, String)>> {
        self.action_tx
    }

    /// The registered channel for closing notifications, if any.
    pub closed spec fn close_sender(self) -> Option<Sender<u32>> {
        self.close_tx
    }

    /// No channel registered yet.
    pub fn new() -> (channels: Self)
        ensures
            channels.action_sender() is None,
            channels.close_sender() is None,
    {
        UiChannels { action_tx: None, close_tx: None }
    }

    /// Whether a channel for closing notifications is registered.
    pub fn has_close_tx(&self) -> (present: bool)
        ensures
            present == self.close_sender() is Some,
    {
        self.close_tx.is_some()
    }

    /// Whether a channel for invoked actions is registered.
    pub fn has_action_tx(&self) -> (present: bool)
        ensures
            present == self.action_sender() is Some,
    {
        self.action_tx.is_some()
    }
}

/// Registers the channel for invoked actions; only the first registration
/// takes effect.
pub fn set_action_tx(channels: &mut UiChannels, tx: Sender<(u32, String)>)
    ensures
        final(channels).action_sender() == set_once(old(channels).action_sender(), tx),
        final(channels).close_sender() == old(channels).close_sender(),
{
    if channels.action_tx.is_none() {
        channels.action_tx = Some(tx);
    }
}

/// Registers the channel for closing notifications; only the first
/// registration takes effect.
pub fn set_action_close_tx(channels: &mut UiChannels, tx: Sender<u32>)
    ensures
        final(channels).close_sender() == set_once(old(channels).close_sender(), tx),
        final(channels).action_sender() == old(channels).action_sender(),
{
    if channels.close_tx.is_none() {
        channels.close_tx = Some(tx);
    }
}

/// Asks the popup to close notification `id`: answers the registered close
/// channel together with the message to send on it, `id` itself, or `None`
/// where no close channel is registered. The caller performs the send.
pub fn dismiss_notification_by_id(channels: &UiChannels, id: u32) -> (msg: Option<(&Sender<u32>, u32)>)
    ensures
        msg is Some <==> channels.close_sender() is Some,
        msg matches Some((tx, m)) ==> *tx == channels.close_sender()->0 && m == id,
{
    match &channels.close_tx {
        Some(tx) => Some((tx, id)),
        None => None,
    }
}

/// The identifier handed out after `id`: one more, wrapping to 0 after the
/// largest `u32`.
pub open spec fn advance_id(id: u32) -> u32 {
    if id == 0xffff_ffffu32 {
        0
    } else {
        (id + 1) as u32
    }
}

/// The counter after `k` notifications starting from `start`.
pub open spec fn id_after(start: u32, k: nat) -> u32
    decreases k,
{
    if k == 0 {
        start
    } else {
        advance_id(id_after(start, (k - 1) as nat))
    }
}

/// After `k` notifications the counter is `start + k` modulo 2^32.
pub proof fn lemma_id_after_wraps(start: u32, k: nat)
    ensures
        id_after(start, k) as int == (start as int + k) % 0x1_0000_0000,
    decreases k,
{
    if k > 0 {
        lemma_id_after_wraps(start, (k - 1) as nat);
        let p = (start as int + (k - 1)) % 0x1_0000_0000;
        let q = (start as int + (k - 1)) / 0x1_0000_0000;
        assert(start as int + (k - 1) == q * 0x1_0000_0000 + p);
        if p == 0xffff_ffff {
            assert(start as int + k == (q + 1) * 0x1_0000_0000);
            assert((start as int + k) % 0x1_0000_0000 == 0) by {
                vstd::arithmetic::div_mod::lemma_mod_multiples_basic(q + 1, 0x1_0000_0000);
            }
        } else {
            assert(start as int + k == q * 0x1_0000_0000 + (p + 1));
            assert((start as int + k) % 0x1_0000_0000 == p + 1) by {
                vstd::arithmetic::div_mod::lemma_mod_multiples_vanish(q, p + 1, 0x1_0000_0000);
                vstd::arithmetic::div_mod::lemma_small_mod((p + 1) as nat, 0x1_0000_0000);
            }
        }
    }
}

/// The identifiers handed out by 2^32 consecutive notifications are pairwise
/// distinct: one repeats only after the counter has gone all the way round.
pub proof fn lemma_ids_distinct(start: u32, i: nat, j: nat)
    requires
        i < j < 0x1_0000_0000,
    ensures
        id_after(start, i) != id_after(start, j),
{
    lemma_id_after_wraps(start, i);
    lemma_id_after_wraps(start, j);
    let a = start as int + i;
    let b = start as int + j;
    if a % 0x1_0000_0000 == b % 0x1_0000_0000 {
        vstd::arithmetic::div_mod::lemma_fundamental_div_mod(a, 0x1_0000_0000);
        vstd::arithmetic::div_mod::lemma_fundamental_div_mod(b, 0x1_0000_0000);
        let qa = a / 0x1_0000_0000;
        let qb = b / 0x1_0000_0000;
        assert(b - a == (qb - qa) * 0x1_0000_0000);
        assert(0 < b - a < 0x1_0000_0000);
        assert(false) by (nonlinear_arith)
            requires
                b - a == (qb - qa) * 0x1_0000_0000,
                0 < b - a < 0x1_0000_0000,
        ;
    }
}

/// A fresh daemon hands out 1, 2, 3, ... in call order: after `k` calls the
/// counter is `k + 1`, so the first 2^32 - 1 identifiers are all non-zero.
pub proof fn lemma_fresh_daemon_ids(k: nat)
    requires
        k < 0xffff_ffff,
    ensures
        id_after(1, k) == k + 1,
        id_after(1, k) != 0,
{
    lemma_id_after_wraps(1, k);
    vstd::arithmetic::div_mod::lemma_small_mod((1 + k) as nat, 0x1_0000_0000);
}

/// The urgency a notification gets from its `urgency` hint: the level the
/// byte stands for, normal where the hint is missing or not a byte.
pub open spec fn spec_urgency_from_hint(hint: Option<u8>) -> NotificationUrgency {
    match hint {
        Some(v) => NotificationUrgency::spec_from_code(v as u32),
        None => NotificationUrgency::Normal,
    }
}

/// The urgency read from a hint byte is the level whose wire value is that
/// byte, and normal for a byte naming no level or a missing hint; it is the
/// level `NotificationUrgency::from` gives for the byte.
pub proof fn lemma_hint_urgency(hint: Option<u8>)
    ensures
        hint matches Some(v) ==> (v <= 2 ==> spec_urgency_from_hint(hint).code() == v),
        hint matches Some(v) ==> (v > 2 ==> spec_urgency_from_hint(hint)
            == NotificationUrgency::Normal),
        hint matches Some(v) ==> spec_urgency_from_hint(hint)
            == NotificationUrgency::spec_from_code(v as u32),
        hint is None ==> spec_urgency_from_hint(hint) == NotificationUrgency::Normal,
{
}

/// Reads the `urgency` hint (already taken out of the hint table as a byte,
/// or `None` where it is absent or of another type).
pub fn urgency_from_hint(hint: Option<u8>) -> (urgency: NotificationUrgency)
    ensures
        urgency == spec_urgency_from_hint(hint),
        hint matches Some(v) ==> (v <= 2 ==> urgency.code() == v),
        hint matches Some(v) ==> (v > 2 ==> urgency == NotificationUrgency::Normal),
        hint is None ==> urgency == NotificationUrgency::Normal,
{
    match hint {
        Some(v) => NotificationUrgency::from(v as u32),
        None => NotificationUrgency::Normal,
    }
}

/// The expiry timeout in milliseconds as the popup reads it: the bus value
/// reinterpreted as an unsigned 64-bit number, so a negative value ("server
/// default") becomes a huge timeout.
pub open spec fn spec_expire_millis(expire_timeout: i32) -> int {
    if expire_timeout >= 0 {
        expire_timeout as int
    } else {
        expire_timeout as int + 0x1_0000_0000_0000_0000
    }
}

/// The popup's milliseconds are the bus timeout's 64-bit pattern read
/// unsigned: the one value in `0 .. 2^64` equal to the timeout modulo 2^64,
/// and so the timeout itself whenever it is not negative.
pub proof fn lemma_expire_millis_same_bits(expire_timeout: i32)
    ensures
        0 <= spec_expire_millis(expire_timeout) < 0x1_0000_0000_0000_0000,
        spec_expire_millis(expire_timeout) % 0x1_0000_0000_0000_0000 == expire_timeout as int
            % 0x1_0000_0000_0000_0000,
        expire_timeout >= 0 ==> spec_expire_millis(expire_timeout) == expire_timeout as int,
{
    let m: int = 0x1_0000_0000_0000_0000;
    let e = expire_timeout as int;
    vstd::arithmetic::div_mod::lemma_small_mod(spec_expire_millis(expire_timeout) as nat, m as nat);
    if e < 0 {
        vstd::arithmetic::div_mod::lemma_mod_add_multiples_vanish(e, m);
        assert((m + e) % m == e % m);
    }
}

/// Converts the bus expiry timeout to the popup's unsigned milliseconds.
pub fn expire_millis(expire_timeout: i32) -> (millis: u64)
    ensures
        millis as int == spec_expire_millis(expire_timeout),
        expire_timeout >= 0 ==> millis as int == expire_timeout as int,
        expire_timeout < 0 ==> millis as int == expire_timeout as int + 0x1_0000_0000_0000_0000,
{
    if expire_timeout >= 0 {
        expire_timeout as u64
    } else {
        let below: i32 = -(expire_timeout + 1);
        0xffff_ffff_ffff_ffffu64 - below as u64
    }
}

/// The flat action list of the bus, taken two by two as (key, label) pairs;
/// an odd trailing entry is dropped.
pub open spec fn pair_up(actions: Seq<String>) -> Seq<(String, String)> {
    Seq::new(actions.len() / 2, |i: int| (actions[2 * i], actions[2 * i + 1]))
}

/// A list of pairs written back as a flat list.
pub open spec fn flatten_pairs(pairs: Seq<(String, String)>) -> Seq<String>
    decreases pairs.len(),
{
    if pairs.len() == 0 {
        Seq::empty()
    } else {
        flatten_pairs(pairs.drop_last()) + seq![pairs.last().0, pairs.last().1]
    }
}

/// Pairing the actions loses nothing but an odd trailing entry: written back
/// flat, the pairs are the list cut to an even length.
pub proof fn lemma_pairs_flatten(actions: Seq<String>)
    ensures
        flatten_pairs(pair_up(actions)) == actions.take(2 * (actions.len() / 2) as int),
{
    lemma_pairs_flatten_prefix(actions, actions.len() / 2);
    assert(pair_up(actions).take((actions.len() / 2) as int) =~= pair_up(actions));
}

proof fn lemma_pairs_flatten_prefix(actions: Seq<String>, k: nat)
    requires
        k <= actions.len() / 2,
    ensures
        flatten_pairs(pair_up(actions).take(k as int)) == actions.take(2 * k as int),
    decreases k,
{
    let pairs = pair_up(actions).take(k as int);
    if k == 0 {
        assert(actions.take(0) =~= Seq::<String>::empty());
    } else {
        lemma_pairs_flatten_prefix(actions, (k - 1) as nat);
        assert(pairs.drop_last() =~= pair_up(actions).take(k - 1));
        assert(actions.take(2 * k as int) =~= actions.take(2 * (k - 1) as int) + seq![
            actions[2 * (k - 1)],
            actions[2 * (k - 1) + 1],
        ]);
    }
}

/// Takes the flat action list two by two.
pub fn pair_actions(actions: &Vec<String>) -> (pairs: Vec<(String, String)>)
    ensures
        pairs@ == pair_up(actions@),
{
    let mut pairs: Vec<(String, String)> = Vec::new();
    let n: usize = actions.len();
    let mut i: usize = 0;
    while n - i >= 2
        invariant
            n == actions.len(),
            i <= n,
            i % 2 == 0,
            pairs@.len() == i / 2,
            forall|k: int|
                0 <= k < i / 2 ==> #[trigger] pairs@[k] == (actions@[2 * k], actions@[2 * k + 1]),
        decreases n - i,
    {
        let key = actions[i].clone();
        let label = actions[i + 1].clone();
        pairs.push((key, label));
        i = i + 2;
    }
    assert(pairs@ =~= pair_up(actions@));
    pairs
}

/// The notification that the daemon hands to the popup for a bus request.
pub open spec fn is_composed(
    n: Notification,
    id: u32,
    app_name: String,
    app_icon: String,
    summary: String,
    body: String,
    actions: Seq<String>,
    urgency_hint: Option<u8>,
    expire_timeout: i32,
    timestamp: i128,
) -> bool {
    &&& n.app_name == app_name
    &&& n.summary == summary
    &&& n.body == body
    &&& n.urgency == spec_urgency_from_hint(urgency_hint)
    &&& n.timestamp == timestamp
    &&& n.icon == Some(app_icon)
    &&& n.expire_timeout as int == spec_expire_millis(expire_timeout)
    &&& n.id == Some(id)
    &&& n.actions@ == pair_up(actions)
}

/// A composed notification carries every part of the request unchanged in
/// its own field: app name, summary, body, icon, identifier and reception
/// time, with the level the urgency hint names, the expiry timeout's unsigned
/// reading, and the actions taken two by two.
pub proof fn lemma_composed_fields(
    n: Notification,
    id: u32,
    app_name: String,
    app_icon: String,
    summary: String,
    body: String,
    actions: Seq<String>,
    urgency_hint: Option<u8>,
    expire_timeout: i32,
    timestamp: i128,
)
    requires
        is_composed(
            n,
            id,
            app_name,
            app_icon,
            summary,
            body,
            actions,
            urgency_hint,
            expire_timeout,
            timestamp,
        ),
    ensures
        n.app_name == app_name,
        n.summary == summary,
        n.body == body,
        n.icon == Some(app_icon),
        n.id == Some(id),
        n.timestamp == timestamp,
        urgency_hint matches Some(v) ==> (v <= 2 ==> n.urgency.code() == v),
        urgency_hint matches Some(v) ==> (v > 2 ==> n.urgency == NotificationUrgency::Normal),
        urgency_hint is None ==> n.urgency == NotificationUrgency::Normal,
        expire_timeout >= 0 ==> n.expire_timeout as int == expire_timeout as int,
        n.actions@.len() == actions.len() / 2,
        forall|i: int|
            0 <= i < n.actions@.len() ==> #[trigger] n.actions@[i] == (
                actions[2 * i],
                actions[2 * i + 1],
            ),
{
    lemma_hint_urgency(urgency_hint);
    lemma_expire_millis_same_bits(expire_timeout);
}

/// Builds the notification for a bus request received at `timestamp`
/// (nanoseconds since the Unix epoch) and given identifier `id`.
pub fn compose_notification(
    id: u32,
    app_name: String,
    app_icon: String,
    summary: String,
    body: String,
    actions: &Vec<String>,
    urgency_hint: Option<u8>,
    expire_timeout: i32,
    timestamp: i128,
) -> (n: Notification)
    ensures
        is_composed(
            n,
            id,
            app_name,
            app_icon,
            summary,
            body,
            actions@,
            urgency_hint,
            expire_timeout,
            timestamp,
        ),
        n.app_name == app_name,
        n.summary == summary,
        n.body == body,
        n.icon == Some(app_icon),
        n.id == Some(id),
        n.timestamp == timestamp,
{
    Notification {
        app_name,
        summary,
        body,
        urgency: urgency_from_hint(urgency_hint),
        timestamp,
        icon: Some(app_icon),
        expire_timeout: expire_millis(expire_timeout),
        id: Some(id),
        actions: pair_actions(actions),
    }
}

/// The server side of the notification protocol: hands out identifiers and
/// forwards notifications and close requests to the popup.
#[derive(Debug)]
pub struct NotificationDaemon {
    pub tx: Option<Sender<Notification>>,
    pub close_tx: Option<Sender<u32>>,
    next_id: u32,
}

impl NotificationDaemon {
    /// The identifier that the next notification gets.
    pub closed spec fn pending_id(self) -> u32 {
        self.next_id
    }

    /// The channel notifications are forwarded on, if any.
    pub closed spec fn notification_sender(self) -> Option<Sender<Notification>> {
        self.tx
    }

    /// The channel close requests are forwarded on, if any.
    pub closed spec fn close_sender(self) -> Option<Sender<u32>> {
        self.close_tx
    }

    /// A daemon that forwards to the given channels; identifiers start at 1.
    pub fn with_tx(tx: Sender<Notification>, close_tx: Sender<u32>) -> (daemon: Self)
        ensures
            daemon.notification_sender() == Some(tx),
            daemon.close_sender() == Some(close_tx),
            daemon.pending_id() == 1,
    {
        NotificationDaemon { tx: Some(tx), close_tx: Some(close_tx), next_id: 1 }
    }

    /// The identifier that the next notification gets.
    pub fn next_id(&self) -> (id: u32)
        ensures
            id == self.pending_id(),
    {
        self.next_id
    }

    /// Takes the next identifier and moves the counter one step.
    fn take_id(&mut self) -> (id: u32)
        ensures
            id == old(self).pending_id(),
            final(self).pending_id() == advance_id(old(self).pending_id()),
            final(self).notification_sender() == old(self).notification_sender(),
            final(self).close_sender() == old(self).close_sender(),
    {
        let id = self.next_id;
        self.next_id = if id == 0xffff_ffffu32 {
            0
        } else {
            id + 1
        };
        id
    }

    /// Handles a `Notify` request received at `now` (nanoseconds since the
    /// Unix epoch): gives it the next identifier and answers that identifier
    /// with the notification to forward to the popup. The caller forwards it on
    /// the notification channel, when one is registered. `replaces_id` is not
    /// honoured: every request gets a fresh identifier.
    pub fn notify(
        &mut self,
        app_name: String,
        replaces_id: u32,
        app_icon: String,
        summary: String,
        body: String,
        actions: Vec<String>,
        urgency_hint: Option<u8>,
        expire_timeout: i32,
        now: i128,
    ) -> (out: (u32, Notification))
        ensures
            out.0 == old(self).pending_id(),
            final(self).pending_id() == advance_id(old(self).pending_id()),
            final(self).notification_sender() == old(self).notification_sender(),
            final(self).close_sender() == old(self).close_sender(),
            is_composed(
                out.1,
                out.0,
                app_name,
                app_icon,
                summary,
                body,
                actions@,
                urgency_hint,
                expire_timeout,
                now,
            ),
            out.1.app_name == app_name,
            out.1.summary == summary,
            out.1.body == body,
            out.1.icon == Some(app_icon),
            out.1.id == Some(out.0),
            out.1.timestamp == now,
    {
        let id = self.take_id();
        let notification = compose_notification(
            id,
            app_name,
            app_icon,
            summary,
            body,
            &actions,
            urgency_hint,
            expire_timeout,
            now,
        );
        (id, notification)
    }

    /// Handles a `CloseNotification` request: answers the close channel
    /// together with the message to send on it, `id` itself, or `None` where no
    /// close channel is registered. The caller performs the send.
    pub fn close_notification(&self, id: u32) -> (msg: Option<(&Sender<u32>, u32)>)
        ensures
            msg is Some <==> self.close_sender() is Some,
            msg matches Some((tx, m)) ==> *tx == self.close_sender()->0 && m == id,
    {
        match &self.close_tx {
            Some(tx) => Some((tx, id)),
            None => None,
        }
    }

    /// The capabilities announced to clients.
    pub fn get_capabilities(&self) -> (caps: Vec<String>)
        ensures
            caps@.map_values(|s: String| s@) == seq![
                "actions"@,
                "body"@,
                "body-markup"@,
                "body-hyperlinks"@,
            ],
    {
        let mut caps: Vec<String> = Vec::new();
        caps.push(String::from_str("actions"));
        caps.push(String::from_str("body"));
        caps.push(String::from_str("body-markup"));
        caps.push(String::from_str("body-hyperlinks"));
        assert(caps@.map_values(|s: String| s@) =~= seq![
            "actions"@,
            "body"@,
            "body-markup"@,
            "body-hyperlinks"@,
        ]);
        caps
    }

    /// Name, vendor, version of the server and version of the protocol.
    pub fn get_server_information(&self) -> (info: (String, String, String, String))
        ensures
            info.0@ == "Notifications-RS"@,
            info.1@ == "N/A"@,
            info.2@ == "0.1"@,
            info.3@ == "1.3"@,
    {
        (
            String::from_str("Notifications-RS"),
            String::from_str("N/A"),
            String::from_str("0.1"),
            String::from_str("1.3"),
        )
    }
}

/// A signal that the daemon emits on the bus.
#[derive(Debug)]
pub enum BusSignal {
    ActionInvoked { id: u32, action_key: String },
    NotificationClosed { id: u32, reason: u32 },
}

/// The reason code of `NotificationClosed` used after an action was invoked.
pub const CLOSED_BY_OWNER: u32 = 3;

impl BusSignal {
    /// The member name of the signal on the notifications interface.
    pub fn member(&self) -> (name: String)
        ensures
            name@ == (match self {
                BusSignal::ActionInvoked { .. } => "ActionInvoked"@,
                BusSignal::NotificationClosed { .. } => "NotificationClosed"@,
            }),
    {
        match self {
            BusSignal::ActionInvoked { .. } => String::from_str("ActionInvoked"),
            BusSignal::NotificationClosed { .. } => String::from_str("NotificationClosed"),
        }
    }
}

/// The signals announcing that action `action_key` of notification `id` was
/// invoked: the action itself, then the closing of the notification by its
/// owner. Without a bus connection nothing is emitted.
pub fn action_invoked_signals(connected: bool, id: u32, action_key: &str) -> (signals: Vec<BusSignal>)
    ensures
        !connected ==> signals@.len() == 0,
        connected ==> {
            &&& signals@.len() == 2
            &&& signals@[0] matches BusSignal::ActionInvoked { id: i, action_key: a }
            &&& i == id && a@ == action_key@
            &&& signals@[1] == (BusSignal::NotificationClosed { id, reason: CLOSED_BY_OWNER })
        },
{
    let mut signals: Vec<BusSignal> = Vec::new();
    if connected {
        signals.push(BusSignal::ActionInvoked { id, action_key: action_key.to_string() });
        signals.push(BusSignal::NotificationClosed { id, reason: CLOSED_BY_OWNER });
    }
    signals
}

} // verus!
