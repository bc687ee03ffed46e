//! Basic MQTT values: quality of service levels, packet identifiers,
//! topic names and topic filters.
use vstd::prelude::*;
use vstd::utf8::encode_utf8;

verus! {

/// Packet delivery quality of service.
#[derive(Clone, Copy, Debug, PartialEq, Eq, Structural)]
pub enum QoS {
    /// At most once.
    Level0,
    /// At least once.
    Level1,
    /// Exactly once.
    Level2,
}

impl QoS {
    /// The numeric level of the QoS (0, 1 or 2).
    pub open spec fn level(self) -> u8 {
        match self {
            QoS::Level0 => 0,
            QoS::Level1 => 1,
            QoS::Level2 => 2,
        }
    }

    /// Returns the numeric level of the QoS.
    pub fn as_u8(self) -> (r: u8)
        ensures
            r == self.level(),
    {
        match self {
            QoS::Level0 => 0,
            QoS::Level1 => 1,
            QoS::Level2 => 2,
        }
    }

    /// Whether delivery at this level needs a packet identifier.
    pub open spec fn needs_pid(self) -> bool {
        self != QoS::Level0
    }
}

/// The packet identifier that follows `pid`: identifiers run from 1 to
/// 65535 and wrap around to 1, never taking the value 0.
pub open spec fn pid_next(pid: u16) -> u16 {
    if pid == 65535 {
        1
    } else {
        (pid + 1) as u16
    }
}

/// The packet identifier `n` steps after `pid`.
pub open spec fn pid_after(pid: u16, n: nat) -> u16
    decreases n,
{
    if n == 0 {
        pid
    } else {
        pid_next(pid_after(pid, (n - 1) as nat))
    }
}

/// Stepping through packet identifiers: from a non-zero identifier, the
/// identifier `n` steps on is `(pid - 1 + n) mod 65535 + 1`; it is never 0.
pub proof fn lemma_pid_after(pid: u16, n: nat)
    requires
        pid != 0,
    ensures
        pid_after(pid, n) == (pid - 1 + n) % 65535 + 1,
        pid_after(pid, n) != 0,
    decreases n,
{
    if n > 0 {
        lemma_pid_after(pid, (n - 1) as nat);
        let x: int = pid - 1 + n - 1;
        assert(x >= 0);
        assert((x + 1) % 65535 == if x % 65535 == 65534 {
            0
        } else {
            x % 65535 + 1
        });
    }
}

/// Packet identifiers handed out in a row do not repeat: from a non-zero
/// identifier, the next 65535 identifiers are pairwise distinct, and the
/// sequence comes back to its start after 65535 steps.
pub proof fn lemma_pid_sequence_distinct(pid: u16, i: nat, j: nat)
    requires
        pid != 0,
        i < j < 65535,
    ensures
        pid_after(pid, i) != pid_after(pid, j),
        pid_after(pid, 65535) == pid,
{
    lemma_pid_after(pid, i);
    lemma_pid_after(pid, j);
    lemma_pid_after(pid, 65535);
    let a: int = pid - 1 + i;
    let b: int = pid - 1 + j;
    assert(0 <= a < b && b - a < 65535);
    assert(a % 65535 != b % 65535) by (nonlinear_arith)
        requires
            0 <= a < b,
            b - a < 65535,
    {
        let qa = a / 65535;
        let qb = b / 65535;
        assert(a == qa * 65535 + a % 65535);
        assert(b == qb * 65535 + b % 65535);
    }
}

/// `mqtt_proto::Pid` addition: `Pid + 1` wraps around and skips 0.
/// Claimed: for a non-zero identifier, the result is `pid_next(pid)`.
#[verifier::external_body]
pub(crate) fn pid_successor(pid: u16) -> (res: u16)
    requires
        pid != 0,
    ensures
        res == pid_next(pid),
{
    (mqtt_proto::Pid::try_from(pid).unwrap() + 1).value()
}

/// The largest value a variable byte integer can carry, plus one.
pub open spec fn var_byte_int_limit() -> u32 {
    268435456
}

/// `mqtt_proto::v5::VarByteInt::try_from(u32)`.
/// Claimed: the conversion succeeds, keeping the value, exactly when the
/// value is below 268,435,456.
#[verifier::external_body]
pub(crate) fn var_byte_int_from(value: u32) -> (res: Option<u32>)
    ensures
        res == (if value < var_byte_int_limit() {
            Some(value)
        } else {
            None::<u32>
        }),
{
    mqtt_proto::v5::VarByteInt::try_from(value).ok().map(|v| v.value())
}

/// A string is a valid topic name when its UTF-8 encoding fits in 65535
/// bytes and it holds neither a wildcard (`+`, `#`) nor a NUL character.
pub open spec fn valid_topic_name(s: Seq<char>) -> bool {
    &&& encode_utf8(s).len() <= 65535
    &&& !s.contains('+')
    &&& !s.contains('#')
    &&& !s.contains('\0')
}

/// `mqtt_proto::TopicName::is_invalid`.
/// Claimed: a topic name is invalid exactly when it is longer than 65535
/// bytes or holds `+`, `#` or NUL.
#[verifier::external_body]
fn topic_name_is_invalid(value: &str) -> (res: bool)
    ensures
        res == !valid_topic_name(value@),
{
    mqtt_proto::TopicName::is_invalid(value)
}

/// Whether `mqtt_proto::TopicFilter::is_invalid` rejects a filter (the
/// rules on wildcards, levels and shared subscriptions are the codec's).
pub uninterp spec fn topic_filter_rejected(s: Seq<char>) -> bool;

/// `mqtt_proto::TopicFilter::is_invalid`, its first component.
/// Claimed: the result is the codec's verdict on the filter, a function of
/// the filter's text alone; an empty filter is always rejected.
#[verifier::external_body]
fn topic_filter_is_invalid(value: &str) -> (res: bool)
    ensures
        res == topic_filter_rejected(value@),
        value@.len() == 0 ==> res,
{
    mqtt_proto::TopicFilter::is_invalid(value).0
}

/// A topic name, the destination of a published message.
#[derive(Debug)]
pub struct TopicName {
    name: String,
}

impl View for TopicName {
    type V = Seq<char>;

    open spec fn view(&self) -> Seq<char> {
        self.spec_text()
    }
}

impl TopicName {
    /// The text of the topic name.
    pub closed spec fn spec_text(&self) -> Seq<char> {
        self.name@
    }

    /// Topic names only ever hold valid text.
    #[verifier::type_invariant]
    closed spec fn inv(&self) -> bool {
        valid_topic_name(self.name@)
    }

    /// Parses a topic name; `None` when the text is not a valid topic name.
    pub fn try_new(value: &str) -> (res: Option<TopicName>)
        ensures
            res is Some <==> valid_topic_name(value@),
            res matches Some(t) ==> t@ == value@,
    {
        if topic_name_is_invalid(value) {
            None
        } else {
            Some(TopicName { name: value.to_owned() })
        }
    }

    /// The text of the topic name, which is always a valid topic name.
    pub fn as_str(&self) -> (res: &str)
        ensures
            res@ == self@,
            valid_topic_name(self@),
    {
        proof {
            use_type_invariant(self);
        }
        self.name.as_str()
    }


    /// Whether two topic names are the same.
    pub fn same_as(&self, other: &TopicName) -> (res: bool)
        ensures
            res == (self@ == other@),
    {
        self.name == other.name
    }
}

impl Clone for TopicName {
    fn clone(&self) -> (res: Self)
        ensures
            res == *self,
    {
        proof {
            use_type_invariant(self);
        }
        TopicName { name: self.name.clone() }
    }
}

/// A topic filter, what a subscription matches.
#[derive(Debug)]
pub struct TopicFilter {
    filter: String,
}

impl View for TopicFilter {
    type V = Seq<char>;

    open spec fn view(&self) -> Seq<char> {
        self.spec_text()
    }
}

impl TopicFilter {
    /// The text of the topic filter.
    pub closed spec fn spec_text(&self) -> Seq<char> {
        self.filter@
    }

    /// Topic filters only ever hold text that the codec accepts.
    #[verifier::type_invariant]
    closed spec fn inv(&self) -> bool {
        !topic_filter_rejected(self.filter@)
    }

    /// Parses a topic filter; `None` when the codec rejects the text.
    pub fn try_new(value: &str) -> (res: Option<TopicFilter>)
        ensures
            res is Some <==> !topic_filter_rejected(value@),
            res matches Some(t) ==> t@ == value@,
    {
        if topic_filter_is_invalid(value) {
            None
        } else {
            Some(TopicFilter { filter: value.to_owned() })
        }
    }

    /// The text of the topic filter, which the codec always accepts.
    pub fn as_str(&self) -> (res: &str)
        ensures
            res@ == self@,
            !topic_filter_rejected(self@),
    {
        proof {
            use_type_invariant(self);
        }
        self.filter.as_str()
    }

    /// Whether two topic filters are the same.
    pub fn same_as(&self, other: &TopicFilter) -> (res: bool)
        ensures
            res == (self@ == other@),
    {
        self.filter == other.filter
    }
}

impl Clone for TopicFilter {
    fn clone(&self) -> (res: Self)
        ensures
            res == *self,
    {
        proof {
            use_type_invariant(self);
        }
        TopicFilter { filter: self.filter.clone() }
    }
}

} // verus!
