use vstd::prelude::*;

verus! {

/// How pressing a notification is, as carried by the `urgency` hint.
#[derive(Copy, Clone, Debug, PartialEq, Eq, Structural)]
pub enum NotificationUrgency {
    Low,
    Normal,
    Critical,
}

impl NotificationUrgency {
    /// The urgency that a hint value stands for: 0, 1 and 2 are the three
    /// levels, every other value counts as normal.
    pub open spec fn spec_from_code(code: u32) -> NotificationUrgency {
        if code == 0 {
            NotificationUrgency::Low
        } else if code == 1 {
            NotificationUrgency::Normal
        } else if code == 2 {
            NotificationUrgency::Critical
        } else {
            NotificationUrgency::Normal
        }
    }

    /// The wire value of a level.
    pub open spec fn code(self) -> u32 {
        match self {
            NotificationUrgency::Low => 0,
            NotificationUrgency::Normal => 1,
            NotificationUrgency::Critical => 2,
        }
    }

    /// The human-readable name of a level.
    pub open spec fn name(self) -> Seq<char> {
        match self {
            NotificationUrgency::Low => "Low"@,
            NotificationUrgency::Normal => "Normal"@,
            NotificationUrgency::Critical => "Critical"@,
        }
    }

    /// The wire value of this level (0, 1 or 2).
    pub fn level(&self) -> (code: u32)
        ensures
            code == self.code(),
    {
        match self {
            NotificationUrgency::Low => 0,
            NotificationUrgency::Normal => 1,
            NotificationUrgency::Critical => 2,
        }
    }

    /// The name of this level: "Low", "Normal" or "Critical".
    pub fn to_string(&self) -> (s: String)
        ensures
            s@ == self.name(),
    {
        match self {
            NotificationUrgency::Low => String::from_str("Low"),
            NotificationUrgency::Normal => String::from_str("Normal"),
            NotificationUrgency::Critical => String::from_str("Critical"),
        }
    }
}

impl From<u32> for NotificationUrgency {
    fn from(value: u32) -> (urgency: Self) {
        match value {
            0 => NotificationUrgency::Low,
            1 => NotificationUrgency::Normal,
            2 => NotificationUrgency::Critical,
            _ => NotificationUrgency::Normal,
        }
    }
}

impl vstd::std_specs::convert::FromSpecImpl<u32> for NotificationUrgency {
    open spec fn obeys_from_spec() -> bool {
        true
    }

    open spec fn from_spec(v: u32) -> Self {
        NotificationUrgency::spec_from_code(v)
    }
}

/// Reading a level's wire value back gives the same level, and every value
/// outside the three levels reads as normal.
pub proof fn lemma_urgency_code_roundtrip(urgency: NotificationUrgency, other: u32)
    ensures
        NotificationUrgency::spec_from_code(urgency.code()) == urgency,
        other > 2 ==> NotificationUrgency::spec_from_code(other) == NotificationUrgency::Normal,
{
}

/// A notification as the popup window receives it.
#[derive(Clone, Debug)]
pub struct Notification {
    pub app_name: String,
    pub summary: String,
    pub body: String,
    pub urgency: NotificationUrgency,
    /// When the daemon received it, in nanoseconds since the Unix epoch
    /// (negative before it).
    pub timestamp: i128,
    pub icon: Option<String>,
    /// How long the popup keeps it, in milliseconds; 0 keeps it until dismissed.
    pub expire_timeout: u64,
    pub id: Option<u32>,
    /// (action key, button label) pairs.
    pub actions: Vec<(String, String)>,
}

} // verus!
