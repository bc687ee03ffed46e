//! In-memory MQTT session state: the packet identifier counter, outgoing
//! messages awaiting acknowledgment, outgoing releases awaiting completion,
//! and subscriptions.
use vstd::prelude::*;

use crate::error::MqttError;
use crate::state::{SubscriptionInfo, SubscriptionState};
use crate::types::{pid_next, pid_successor, QoS, TopicFilter, TopicName};

verus! {

/// An outgoing QoS 1 or QoS 2 message awaiting acknowledgment.
#[derive(Debug)]
pub struct InflightMessage {
    pub topic: TopicName,
    pub qos: QoS,
    pub retain: bool,
    pub payload: Vec<u8>,
    pub retry_count: u8,
    pub timestamp: u64,
}

impl InflightMessage {
    /// Two messages carry the same topic, QoS, retain flag, payload, retry
    /// count and timestamp.
    pub open spec fn same_as(&self, other: &InflightMessage) -> bool {
        &&& self.topic@ == other.topic@
        &&& self.qos == other.qos
        &&& self.retain == other.retain
        &&& self.payload@ == other.payload@
        &&& self.retry_count == other.retry_count
        &&& self.timestamp == other.timestamp
    }
}

impl Clone for InflightMessage {
    fn clone(&self) -> (res: Self)
        ensures
            res.same_as(self),
    {
        InflightMessage {
            topic: self.topic.clone(),
            qos: self.qos,
            retain: self.retain,
            payload: vstd::slice::slice_to_vec(self.payload.as_slice()),
            retry_count: self.retry_count,
            timestamp: self.timestamp,
        }
    }
}

// ---------------------------------------------------------------------------
// Outgoing messages awaiting acknowledgment, by packet identifier.
// ---------------------------------------------------------------------------

/// Outgoing messages awaiting acknowledgment; a `hashbrown` map keyed by
/// packet identifier.
#[verifier::external_body]
#[derive(Debug)]
pub struct PendingPublishes {
    map: hashbrown::HashMap<u16, InflightMessage>,
}

/// The messages held by a [`PendingPublishes`] map, by packet identifier.
pub uninterp spec fn pending_publish_entries(m: PendingPublishes) -> Map<u16, InflightMessage>;

/// `hashbrown::HashMap::new`. Claimed: the new map holds no entry.
#[verifier::external_body]
fn pending_publishes_new() -> (res: PendingPublishes)
    ensures
        pending_publish_entries(res) =~= Map::empty(),
{
    PendingPublishes { map: hashbrown::HashMap::new() }
}

/// `hashbrown::HashMap::insert`. Claimed: the key now maps to the value and
/// the other entries stay.
#[verifier::external_body]
fn pending_publishes_insert(m: &mut PendingPublishes, pid: u16, message: InflightMessage)
    ensures
        pending_publish_entries(*final(m)) == pending_publish_entries(*old(m)).insert(
            pid,
            message,
        ),
{
    m.map.insert(pid, message);
}

/// `hashbrown::HashMap::remove`. Claimed: the entry of the key, if any, is
/// taken out and returned; the other entries stay.
#[verifier::external_body]
fn pending_publishes_remove(m: &mut PendingPublishes, pid: u16) -> (res: Option<InflightMessage>)
    ensures
        pending_publish_entries(*final(m)) == pending_publish_entries(*old(m)).remove(pid),
        pending_publish_entries(*old(m)).contains_key(pid) ==> res == Some(
            pending_publish_entries(*old(m))[pid],
        ),
        !pending_publish_entries(*old(m)).contains_key(pid) ==> res is None,
{
    m.map.remove(&pid)
}

/// `hashbrown::HashMap::get`. Claimed: the message of the key, if any.
#[verifier::external_body]
fn pending_publishes_get(m: &PendingPublishes, pid: u16) -> (res: Option<&InflightMessage>)
    ensures
        pending_publish_entries(*m).contains_key(pid) ==> res == Some(
            &pending_publish_entries(*m)[pid],
        ),
        !pending_publish_entries(*m).contains_key(pid) ==> res is None,
{
    m.map.get(&pid)
}

/// `hashbrown::HashMap::keys`, collected. Claimed: every key once, in the
/// map's own order, which depends on a hasher seeded anew in each process.
#[verifier::external_body]
fn pending_publishes_keys(m: &PendingPublishes) -> (res: Vec<u16>)
    ensures
        res@.no_duplicates(),
        res@.to_set() == pending_publish_entries(*m).dom(),
{
    m.map.keys().copied().collect()
}

/// `hashbrown::HashMap::len`. Claimed: the number of entries.
#[verifier::external_body]
fn pending_publishes_len(m: &PendingPublishes) -> (res: usize)
    ensures
        res == pending_publish_entries(*m).len(),
{
    m.map.len()
}

/// `hashbrown::HashMap::clear`. Claimed: no entry is left.
#[verifier::external_body]
fn pending_publishes_clear(m: &mut PendingPublishes)
    ensures
        pending_publish_entries(*final(m)) =~= Map::empty(),
{
    m.map.clear()
}

// ---------------------------------------------------------------------------
// Outgoing releases awaiting completion.
// ---------------------------------------------------------------------------

/// Packet identifiers of outgoing releases awaiting completion; a
/// `hashbrown` set.
#[verifier::external_body]
#[derive(Debug)]
pub struct PendingReleases {
    set: hashbrown::HashSet<u16>,
}

/// The packet identifiers held by a [`PendingReleases`] set.
pub uninterp spec fn pending_release_ids(s: PendingReleases) -> Set<u16>;

/// `hashbrown::HashSet::new`. Claimed: the new set is empty.
#[verifier::external_body]
fn pending_releases_new() -> (res: PendingReleases)
    ensures
        pending_release_ids(res) =~= Set::empty(),
{
    PendingReleases { set: hashbrown::HashSet::new() }
}

/// `hashbrown::HashSet::insert`. Claimed: the value is added.
#[verifier::external_body]
fn pending_releases_insert(s: &mut PendingReleases, pid: u16)
    ensures
        pending_release_ids(*final(s)) == pending_release_ids(*old(s)).insert(pid),
{
    s.set.insert(pid);
}

/// `hashbrown::HashSet::remove`. Claimed: the value is taken out; the
/// result tells whether it was present.
#[verifier::external_body]
fn pending_releases_remove(s: &mut PendingReleases, pid: u16) -> (res: bool)
    ensures
        pending_release_ids(*final(s)) == pending_release_ids(*old(s)).remove(pid),
        res == pending_release_ids(*old(s)).contains(pid),
{
    s.set.remove(&pid)
}

/// `hashbrown::HashSet::iter`, collected. Claimed: every value once, in the
/// set's own order, which depends on a hasher seeded anew in each process.
#[verifier::external_body]
fn pending_releases_values(s: &PendingReleases) -> (res: Vec<u16>)
    ensures
        res@.no_duplicates(),
        res@.to_set() == pending_release_ids(*s),
{
    s.set.iter().copied().collect()
}

/// `hashbrown::HashSet::clear`. Claimed: the set is left empty.
#[verifier::external_body]
fn pending_releases_clear(s: &mut PendingReleases)
    ensures
        pending_release_ids(*final(s)) =~= Set::empty(),
{
    s.set.clear()
}

// ---------------------------------------------------------------------------
// Subscriptions, by the packet identifier of their SUBSCRIBE.
// ---------------------------------------------------------------------------

/// Subscriptions by the packet identifier of their SUBSCRIBE; a `hashbrown`
/// map.
#[verifier::external_body]
#[derive(Debug)]
pub struct SubscriptionTable {
    map: hashbrown::HashMap<u16, SubscriptionInfo>,
}

/// The subscriptions held by a [`SubscriptionTable`].
pub uninterp spec fn subscription_entries(m: SubscriptionTable) -> Map<u16, SubscriptionInfo>;

/// `hashbrown::HashMap::new`. Claimed: the new map holds no entry.
#[verifier::external_body]
fn subscriptions_new() -> (res: SubscriptionTable)
    ensures
        subscription_entries(res) =~= Map::empty(),
{
    SubscriptionTable { map: hashbrown::HashMap::new() }
}

/// `hashbrown::HashMap::insert`. Claimed: the key now maps to the value and
/// the other entries stay.
#[verifier::external_body]
fn subscriptions_insert(m: &mut SubscriptionTable, pid: u16, info: SubscriptionInfo)
    ensures
        subscription_entries(*final(m)) == subscription_entries(*old(m)).insert(pid, info),
{
    m.map.insert(pid, info);
}

/// `hashbrown::HashMap::remove`. Claimed: the entry of the key, if any, is
/// taken out and returned; the other entries stay.
#[verifier::external_body]
fn subscriptions_remove(m: &mut SubscriptionTable, pid: u16) -> (res: Option<SubscriptionInfo>)
    ensures
        subscription_entries(*final(m)) == subscription_entries(*old(m)).remove(pid),
        subscription_entries(*old(m)).contains_key(pid) ==> res == Some(
            subscription_entries(*old(m))[pid],
        ),
        !subscription_entries(*old(m)).contains_key(pid) ==> res is None,
{
    m.map.remove(&pid)
}

/// `hashbrown::HashMap::get`. Claimed: the subscription of the key, if any.
#[verifier::external_body]
fn subscriptions_get(m: &SubscriptionTable, pid: u16) -> (res: Option<&SubscriptionInfo>)
    ensures
        subscription_entries(*m).contains_key(pid) ==> res == Some(
            &subscription_entries(*m)[pid],
        ),
        !subscription_entries(*m).contains_key(pid) ==> res is None,
{
    m.map.get(&pid)
}

/// `hashbrown::HashMap::keys`, collected. Claimed: every key once, in the
/// map's own order, which depends on a hasher seeded anew in each process.
#[verifier::external_body]
fn subscriptions_keys(m: &SubscriptionTable) -> (res: Vec<u16>)
    ensures
        res@.no_duplicates(),
        res@.to_set() == subscription_entries(*m).dom(),
{
    m.map.keys().copied().collect()
}

/// `hashbrown::HashMap::len`. Claimed: the number of entries.
#[verifier::external_body]
fn subscriptions_len(m: &SubscriptionTable) -> (res: usize)
    ensures
        res == subscription_entries(*m).len(),
{
    m.map.len()
}

/// `hashbrown::HashMap::clear`. Claimed: no entry is left.
#[verifier::external_body]
fn subscriptions_clear(m: &mut SubscriptionTable)
    ensures
        subscription_entries(*final(m)) =~= Map::empty(),
{
    m.map.clear()
}

// ---------------------------------------------------------------------------
// Confirmed topic filters.
// ---------------------------------------------------------------------------

/// The texts of confirmed topic filters; a `hashbrown` set.
#[verifier::external_body]
#[derive(Debug)]
pub struct ActiveTopics {
    set: hashbrown::HashSet<String>,
}

/// The topic filter texts held by an [`ActiveTopics`] set.
pub uninterp spec fn active_topic_texts(s: ActiveTopics) -> Set<Seq<char>>;

/// `hashbrown::HashSet::new`. Claimed: the new set is empty.
#[verifier::external_body]
fn active_topics_new() -> (res: ActiveTopics)
    ensures
        active_topic_texts(res) =~= Set::empty(),
{
    ActiveTopics { set: hashbrown::HashSet::new() }
}

/// `hashbrown::HashSet::insert`. Claimed: the text is added.
#[verifier::external_body]
fn active_topics_insert(s: &mut ActiveTopics, filter: &str)
    ensures
        active_topic_texts(*final(s)) == active_topic_texts(*old(s)).insert(filter@),
{
    s.set.insert(filter.to_string());
}

/// `hashbrown::HashSet::remove`. Claimed: the text is taken out.
#[verifier::external_body]
fn active_topics_remove(s: &mut ActiveTopics, filter: &str)
    ensures
        active_topic_texts(*final(s)) == active_topic_texts(*old(s)).remove(filter@),
{
    s.set.remove(filter);
}

/// `hashbrown::HashSet::contains`. Claimed: whether the text is present.
#[verifier::external_body]
fn active_topics_contains(s: &ActiveTopics, filter: &str) -> (res: bool)
    ensures
        res == active_topic_texts(*s).contains(filter@),
{
    s.set.contains(filter)
}

/// `hashbrown::HashSet::len`. Claimed: the number of texts.
#[verifier::external_body]
fn active_topics_len(s: &ActiveTopics) -> (res: usize)
    ensures
        res == active_topic_texts(*s).len(),
{
    s.set.len()
}

/// `hashbrown::HashSet::clear`. Claimed: the set is left empty.
#[verifier::external_body]
fn active_topics_clear(s: &mut ActiveTopics)
    ensures
        active_topic_texts(*final(s)) =~= Set::empty(),
{
    s.set.clear()
}

// ---------------------------------------------------------------------------
// The session.
// ---------------------------------------------------------------------------

/// The subscription after its SUBACK return code: codes 0, 1 and 2 grant
/// the subscription, any other refuses it.
pub open spec fn confirmed_info(info: SubscriptionInfo, return_code: u8) -> SubscriptionInfo {
    SubscriptionInfo {
        state: if return_code <= 2 {
            SubscriptionState::Active
        } else {
            SubscriptionState::Failed
        },
        ..info
    }
}

/// What confirming the subscription of `pid` with the return codes of its
/// SUBACK does; only the first return code is read. A granted
/// subscription (code 0, 1 or 2) becomes active and its filter is
/// recorded, unless the confirmed filters are at capacity, which fails with
/// `Internal` (the subscription is then active but its filter is not
/// recorded). Without such a subscription or return code nothing changes.
pub open spec fn confirm_step(
    before: InMemorySession,
    after: InMemorySession,
    pid: u16,
    return_codes: Seq<u8>,
    res: Result<(), MqttError>,
) -> bool {
    &&& after.wf()
    &&& ({
        let subs = before.subscriptions();
        if !subs.contains_key(pid) || return_codes.len() == 0 {
            &&& res is Ok
            &&& after.subscriptions() == subs
            &&& after.active() == before.active()
        } else {
            let code = return_codes[0];
            let info = subs[pid];
            &&& after.subscriptions() == subs.insert(pid, confirmed_info(info, code))
            &&& (code <= 2 && before.active().len() < before.capacity()) ==> res is Ok
                && after.active() == before.active().insert(info.topic_filter@)
            &&& (code <= 2 && before.active().len() >= before.capacity()) ==> res == Err::<
                (),
                MqttError,
            >(MqttError::Internal) && after.active() == before.active()
            &&& code > 2 ==> res is Ok && after.active() == before.active()
        }
    })
    &&& after.spec_next_pid() == before.spec_next_pid()
    &&& after.pending() == before.pending()
    &&& after.releases() == before.releases()
    &&& after.capacity() == before.capacity()
}

/// The subscriptions left once every one to the topic filter `filter` is
/// removed.
pub open spec fn without_filter(subs: Map<u16, SubscriptionInfo>, filter: Seq<char>) -> Map<
    u16,
    SubscriptionInfo,
> {
    subs.filter_keys(|k: u16| subs[k].topic_filter@ != filter)
}

/// The subscriptions left once every one to a topic filter in `filters`
/// is removed.
pub open spec fn without_filters(subs: Map<u16, SubscriptionInfo>, filters: Seq<Seq<char>>) -> Map<
    u16,
    SubscriptionInfo,
> {
    subs.filter_keys(|k: u16| !filters.contains(subs[k].topic_filter@))
}

/// Some subscription is to the topic filter `filter`.
pub open spec fn has_filter(subs: Map<u16, SubscriptionInfo>, filter: Seq<char>) -> bool {
    exists|k: u16| subs.contains_key(k) && subs[k].topic_filter@ == filter
}

/// Session state kept in memory.
#[derive(Debug)]
pub struct InMemorySession {
    next_pid: u16,
    pending_publishes: PendingPublishes,
    pending_pubrels: PendingReleases,
    subscriptions: SubscriptionTable,
    active_topics: ActiveTopics,
    sub_capacity: usize,
}

impl InMemorySession {
    /// The packet identifier that the next call of `next_pid` hands out.
    pub closed spec fn spec_next_pid(&self) -> u16 {
        self.next_pid
    }

    /// Outgoing messages awaiting acknowledgment, by packet identifier.
    pub closed spec fn pending(&self) -> Map<u16, InflightMessage> {
        pending_publish_entries(self.pending_publishes)
    }

    /// Outgoing releases awaiting completion.
    pub closed spec fn releases(&self) -> Set<u16> {
        pending_release_ids(self.pending_pubrels)
    }

    /// Subscriptions by the packet identifier of their SUBSCRIBE.
    pub closed spec fn subscriptions(&self) -> Map<u16, SubscriptionInfo> {
        subscription_entries(self.subscriptions)
    }

    /// The texts of confirmed topic filters.
    pub closed spec fn active(&self) -> Set<Seq<char>> {
        active_topic_texts(self.active_topics)
    }

    /// How many subscriptions, and how many confirmed topic filters, the
    /// session keeps at most.
    pub closed spec fn capacity(&self) -> nat {
        self.sub_capacity as nat
    }

    /// Packet identifiers are never 0, all collections are finite, and
    /// neither the subscriptions nor the confirmed filters outgrow the
    /// capacity.
    pub closed spec fn wf(&self) -> bool {
        &&& self.next_pid != 0
        &&& self.pending().dom().finite()
        &&& self.releases().finite()
        &&& self.subscriptions().dom().finite()
        &&& self.active().finite()
        &&& self.subscriptions().len() <= self.sub_capacity
        &&& self.active().len() <= self.sub_capacity
    }

    /// Nothing is pending and nothing is subscribed.
    pub open spec fn is_empty(&self) -> bool {
        &&& self.pending() == Map::<u16, InflightMessage>::empty()
        &&& self.releases() == Set::<u16>::empty()
        &&& self.subscriptions() == Map::<u16, SubscriptionInfo>::empty()
        &&& self.active() == Set::<Seq<char>>::empty()
    }

    /// Creates an empty session that keeps at most `sub_capacity`
    /// subscriptions; packet identifiers start at 1.
    pub fn new(sub_capacity: usize) -> (res: Self)
        ensures
            res.wf(),
            res.spec_next_pid() == 1,
            res.is_empty(),
            res.capacity() == sub_capacity,
    {
        InMemorySession {
            next_pid: 1,
            pending_publishes: pending_publishes_new(),
            pending_pubrels: pending_releases_new(),
            subscriptions: subscriptions_new(),
            active_topics: active_topics_new(),
            sub_capacity,
        }
    }

    /// Hands out the next packet identifier; identifiers count up from 1,
    /// wrap from 65535 to 1 and are never 0.
    pub fn next_pid(&mut self) -> (res: u16)
        requires
            old(self).wf(),
        ensures
            final(self).wf(),
            res == old(self).spec_next_pid(),
            res != 0,
            final(self).spec_next_pid() == pid_next(res),
            final(self).pending() == old(self).pending(),
            final(self).releases() == old(self).releases(),
            final(self).subscriptions() == old(self).subscriptions(),
            final(self).active() == old(self).active(),
            final(self).capacity() == old(self).capacity(),
    {
        let pid = self.next_pid;
        self.next_pid = pid_successor(pid);
        pid
    }

    /// Stores an outgoing QoS 1 or QoS 2 message awaiting acknowledgment;
    /// a message stored earlier under the same identifier is replaced.
    pub fn store_outgoing_publish(&mut self, pid: u16, message: InflightMessage) -> (res: Result<
        (),
        MqttError,
    >)
        requires
            old(self).wf(),
        ensures
            final(self).wf(),
            res is Ok,
            final(self).pending() == old(self).pending().insert(pid, message),
            final(self).spec_next_pid() == old(self).spec_next_pid(),
            final(self).releases() == old(self).releases(),
            final(self).subscriptions() == old(self).subscriptions(),
            final(self).active() == old(self).active(),
            final(self).capacity() == old(self).capacity(),
    {
        pending_publishes_insert(&mut self.pending_publishes, pid, message);
        Ok(())
    }

    /// Returns the pending message of a packet identifier, if any.
    pub fn outgoing_publish(&self, pid: u16) -> (res: Option<&InflightMessage>)
        ensures
            self.pending().contains_key(pid) ==> res == Some(&self.pending()[pid]),
            !self.pending().contains_key(pid) ==> res is None,
    {
        pending_publishes_get(&self.pending_publishes, pid)
    }

    /// Records a retransmission of a pending message: its retry count goes
    /// up by one and its timestamp becomes `now`. Returns a copy of the
    /// updated message, or `None` when nothing is pending under `pid`.
    pub fn retry_outgoing_publish(&mut self, pid: u16, now: u64) -> (res: Option<InflightMessage>)
        requires
            old(self).wf(),
            old(self).pending().contains_key(pid) ==> old(self).pending()[pid].retry_count < u8::MAX,
        ensures
            final(self).wf(),
            !old(self).pending().contains_key(pid) ==> res is None && final(self).pending() == old(
                self,
            ).pending(),
            old(self).pending().contains_key(pid) ==> {
                let m = old(self).pending()[pid];
                &&& final(self).pending().dom() == old(self).pending().dom()
                &&& final(self).pending()[pid] == (InflightMessage {
                    retry_count: (m.retry_count + 1) as u8,
                    timestamp: now,
                    ..m
                })
                &&& forall|k: u16|
                    k != pid && old(self).pending().contains_key(k)
                        ==> #[trigger] final(self).pending()[k] == old(self).pending()[k]
                &&& res matches Some(c) && c.same_as(&final(self).pending()[pid])
            },
            final(self).spec_next_pid() == old(self).spec_next_pid(),
            final(self).releases() == old(self).releases(),
            final(self).subscriptions() == old(self).subscriptions(),
            final(self).active() == old(self).active(),
            final(self).capacity() == old(self).capacity(),
    {
        match pending_publishes_remove(&mut self.pending_publishes, pid) {
            Some(mut message) => {
                message.retry_count = message.retry_count + 1;
                message.timestamp = now;
                let copy = message.clone();
                pending_publishes_insert(&mut self.pending_publishes, pid, message);
                proof {
                    assert(self.pending().dom() =~= old(self).pending().dom());
                }
                Some(copy)
            },
            None => None,
        }
    }

    /// Removes a pending message after its acknowledgment and returns it.
    pub fn complete_outgoing_publish(&mut self, pid: u16) -> (res: Option<InflightMessage>)
        requires
            old(self).wf(),
        ensures
            final(self).wf(),
            final(self).pending() == old(self).pending().remove(pid),
            old(self).pending().contains_key(pid) ==> res == Some(old(self).pending()[pid]),
            !old(self).pending().contains_key(pid) ==> res is None,
            final(self).spec_next_pid() == old(self).spec_next_pid(),
            final(self).releases() == old(self).releases(),
            final(self).subscriptions() == old(self).subscriptions(),
            final(self).active() == old(self).active(),
            final(self).capacity() == old(self).capacity(),
    {
        pending_publishes_remove(&mut self.pending_publishes, pid)
    }

    /// The packet identifiers of all pending messages, each once, in no
    /// particular order.
    pub fn pending_publish_ids(&self) -> (res: Vec<u16>)
        ensures
            res@.no_duplicates(),
            res@.to_set() == self.pending().dom(),
    {
        pending_publishes_keys(&self.pending_publishes)
    }

    /// The number of pending messages.
    pub fn pending_publish_count(&self) -> (res: usize)
        ensures
            res == self.pending().len(),
    {
        pending_publishes_len(&self.pending_publishes)
    }

    /// Records that a PUBREL was sent and awaits its PUBCOMP.
    pub fn store_outgoing_pubrel(&mut self, pid: u16) -> (res: Result<(), MqttError>)
        requires
            old(self).wf(),
        ensures
            final(self).wf(),
            res is Ok,
            final(self).releases() == old(self).releases().insert(pid),
            final(self).spec_next_pid() == old(self).spec_next_pid(),
            final(self).pending() == old(self).pending(),
            final(self).subscriptions() == old(self).subscriptions(),
            final(self).active() == old(self).active(),
            final(self).capacity() == old(self).capacity(),
    {
        pending_releases_insert(&mut self.pending_pubrels, pid);
        Ok(())
    }

    /// Forgets a PUBREL after its PUBCOMP; returns the identifier when it
    /// was awaited.
    pub fn complete_outgoing_pubrel(&mut self, pid: u16) -> (res: Option<u16>)
        requires
            old(self).wf(),
        ensures
            final(self).wf(),
            final(self).releases() == old(self).releases().remove(pid),
            res == (if old(self).releases().contains(pid) {
                Some(pid)
            } else {
                None
            }),
            final(self).spec_next_pid() == old(self).spec_next_pid(),
            final(self).pending() == old(self).pending(),
            final(self).subscriptions() == old(self).subscriptions(),
            final(self).active() == old(self).active(),
            final(self).capacity() == old(self).capacity(),
    {
        if pending_releases_remove(&mut self.pending_pubrels, pid) {
            Some(pid)
        } else {
            None
        }
    }

    /// The packet identifiers of all awaited PUBRELs, each once, in no
    /// particular order.
    pub fn pending_pubrel_ids(&self) -> (res: Vec<u16>)
        ensures
            res@.no_duplicates(),
            res@.to_set() == self.releases(),
    {
        pending_releases_values(&self.pending_pubrels)
    }

    /// Adds a new pending subscription; fails with `Internal` when the
    /// session already holds as many subscriptions as its capacity.
    pub fn add_subscription(&mut self, pid: u16, topic_filter: TopicFilter, qos: QoS) -> (res:
        Result<(), MqttError>)
        requires
            old(self).wf(),
        ensures
            final(self).wf(),
            res is Err <==> old(self).subscriptions().len() >= old(self).capacity(),
            res matches Err(e) ==> e == MqttError::Internal && final(self).subscriptions() == old(
                self,
            ).subscriptions(),
            res is Ok ==> final(self).subscriptions() == old(self).subscriptions().insert(
                pid,
                SubscriptionInfo {
                    topic_filter,
                    qos,
                    state: SubscriptionState::Pending,
                    retry_count: 0,
                },
            ),
            final(self).spec_next_pid() == old(self).spec_next_pid(),
            final(self).pending() == old(self).pending(),
            final(self).releases() == old(self).releases(),
            final(self).active() == old(self).active(),
            final(self).capacity() == old(self).capacity(),
    {
        if subscriptions_len(&self.subscriptions) >= self.sub_capacity {
            return Err(MqttError::Internal);
        }
        let info = SubscriptionInfo {
            topic_filter,
            qos,
            state: SubscriptionState::Pending,
            retry_count: 0,
        };
        subscriptions_insert(&mut self.subscriptions, pid, info);
        Ok(())
    }

    /// Confirms a subscription from the return codes of its SUBACK; only
    /// the first return code is read. A granted subscription becomes
    /// active and its filter is recorded, unless the confirmed filters are
    /// at capacity, which fails with `Internal` (the subscription is
    /// then active but its filter is not recorded).
    pub fn confirm_subscription(&mut self, pid: u16, return_codes: &[u8]) -> (res: Result<
        (),
        MqttError,
    >)
        requires
            old(self).wf(),
        ensures
            confirm_step(*old(self), *final(self), pid, return_codes@, res),
    {
        if return_codes.len() == 0 {
            return Ok(());
        }
        let return_code = return_codes[0];
        match subscriptions_remove(&mut self.subscriptions, pid) {
            None => {
                proof {
                    assert(self.subscriptions() =~= old(self).subscriptions());
                }
                Ok(())
            },
            Some(mut info) => {
                let mut res = Ok(());
                if return_code <= 2 {
                    info.state = SubscriptionState::Active;
                    if active_topics_len(&self.active_topics) < self.sub_capacity {
                        active_topics_insert(&mut self.active_topics, info.topic_filter.as_str());
                    } else {
                        res = Err(MqttError::Internal);
                    }
                } else {
                    info.state = SubscriptionState::Failed;
                }
                proof {
                    let before = old(self).subscriptions();
                    assert(self.subscriptions().insert(pid, info).dom() =~= before.dom());
                }
                subscriptions_insert(&mut self.subscriptions, pid, info);
                proof {
                    assert(self.subscriptions() =~= old(self).subscriptions().insert(pid, info));
                }
                res
            },
        }
    }

    /// Removes the subscriptions to a topic filter, whatever packet
    /// identifier their SUBSCRIBE had, and forgets the filter as confirmed.
    /// Returns one of the removed subscriptions, or `None` when there was
    /// none.
    pub fn remove_subscription(&mut self, topic_filter: &TopicFilter) -> (res: Option<
        SubscriptionInfo,
    >)
        requires
            old(self).wf(),
        ensures
            final(self).wf(),
            final(self).subscriptions() == without_filter(old(self).subscriptions(), topic_filter@),
            final(self).active() == old(self).active().remove(topic_filter@),
            has_filter(old(self).subscriptions(), topic_filter@) ==> (res matches Some(info)
                && info.topic_filter@ == topic_filter@ && exists|k: u16|
                old(self).subscriptions().contains_key(k) && old(self).subscriptions()[k] == info),
            !has_filter(old(self).subscriptions(), topic_filter@) ==> res is None,
            final(self).spec_next_pid() == old(self).spec_next_pid(),
            final(self).pending() == old(self).pending(),
            final(self).releases() == old(self).releases(),
            final(self).capacity() == old(self).capacity(),
    {
        let ghost subs0 = self.subscriptions();
        let ghost f = topic_filter@;
        let ids = subscriptions_keys(&self.subscriptions);
        let mut found: Option<SubscriptionInfo> = None;
        let n = ids.len();
        for i in 0..n
            invariant
                n == ids@.len(),
                ids@.no_duplicates(),
                ids@.to_set() == subs0.dom(),
                subs0 == old(self).subscriptions(),
                f == topic_filter@,
                self.wf(),
                self.subscriptions() == subs0.filter_keys(
                    |k: u16| !(ids@.take(i as int).contains(k) && subs0[k].topic_filter@ == f),
                ),
                self.active() == old(self).active(),
                self.spec_next_pid() == old(self).spec_next_pid(),
                self.pending() == old(self).pending(),
                self.releases() == old(self).releases(),
                self.capacity() == old(self).capacity(),
                found matches Some(info) ==> info.topic_filter@ == f && exists|k: u16|
                    subs0.contains_key(k) && subs0[k] == info,
                found is None ==> forall|j: int|
                    0 <= j < i ==> subs0[#[trigger] ids@[j]].topic_filter@ != f,
        {
            let pid = ids[i];
            let ghost before = self.subscriptions();
            proof {
                assert(ids@.to_set().contains(pid));
                assert(!ids@.take(i as int).contains(pid)) by {
                    if ids@.take(i as int).contains(pid) {
                        let k = choose|k: int| 0 <= k < i && ids@.take(i as int)[k] == pid;
                        assert(ids@[k] == ids@[i as int]);
                    }
                }
                assert(ids@.take(i + 1) =~= ids@.take(i as int).push(pid));
                assert(before.contains_key(pid));
                assert(before[pid] == subs0[pid]);
                assert forall|k: u16|
                    #[trigger] ids@.take(i + 1).contains(k) <==> (ids@.take(i as int).contains(k) || k
                        == pid) by {
                    let t = ids@.take(i as int);
                    let t1 = ids@.take(i + 1);
                    if t1.contains(k) {
                        let j = choose|j: int| 0 <= j < t1.len() && t1[j] == k;
                        if j < i {
                            assert(t[j] == k);
                        }
                    }
                    if t.contains(k) {
                        let j = choose|j: int| 0 <= j < t.len() && t[j] == k;
                        assert(t1[j] == k);
                    }
                    if k == pid {
                        assert(t1[i as int] == k);
                    }
                }
            }
            let matches = match subscriptions_get(&self.subscriptions, pid) {
                Some(info) => info.topic_filter.same_as(topic_filter),
                None => false,
            };
            if matches {
                let removed = subscriptions_remove(&mut self.subscriptions, pid);
                proof {
                    assert(self.subscriptions() =~= subs0.filter_keys(
                        |k: u16| !(ids@.take(i + 1).contains(k) && subs0[k].topic_filter@ == f),
                    ));
                }
                if found.is_none() {
                    found = removed;
                }
            } else {
                proof {
                    assert(self.subscriptions() =~= subs0.filter_keys(
                        |k: u16| !(ids@.take(i + 1).contains(k) && subs0[k].topic_filter@ == f),
                    ));
                }
            }
        }
        proof {
            assert(ids@.take(n as int) =~= ids@);
            assert(self.subscriptions() =~= without_filter(subs0, f));
            if has_filter(subs0, f) && found is None {
                let k = choose|k: u16| subs0.contains_key(k) && subs0[k].topic_filter@ == f;
                assert(ids@.to_set().contains(k));
                let j = choose|j: int| 0 <= j < ids@.len() && ids@[j] == k;
                assert(subs0[ids@[j]].topic_filter@ != f);
            }
        }
        active_topics_remove(&mut self.active_topics, topic_filter.as_str());
        found
    }

    /// Whether a topic filter has been confirmed.
    pub fn is_subscribed(&self, topic_filter: &TopicFilter) -> (res: bool)
        ensures
            res == self.active().contains(topic_filter@),
    {
        active_topics_contains(&self.active_topics, topic_filter.as_str())
    }

    /// Clears all session state; packet identifiers start again at 1. The
    /// capacity stays.
    pub fn clear(&mut self)
        requires
            old(self).wf(),
        ensures
            final(self).wf(),
            final(self).spec_next_pid() == 1,
            final(self).is_empty(),
            final(self).capacity() == old(self).capacity(),
    {
        self.next_pid = 1;
        pending_publishes_clear(&mut self.pending_publishes);
        subscriptions_clear(&mut self.subscriptions);
        active_topics_clear(&mut self.active_topics);
        pending_releases_clear(&mut self.pending_pubrels);
    }
}

/// The state of an MQTT session that a storage backend (in memory, in
/// flash, ...) keeps: the packet identifier counter, the outgoing messages
/// awaiting acknowledgment, the releases awaiting completion and the
/// subscriptions. Storing may fail on a backend; what is stored is given
/// back.
pub trait SessionState: Sized {
    /// The backend's own consistency condition.
    spec fn session_wf(&self) -> bool;

    /// The packet identifier that `next_pid` hands out next.
    spec fn session_next_pid(&self) -> u16;

    /// Outgoing messages awaiting acknowledgment, by packet identifier.
    spec fn session_pending(&self) -> Map<u16, InflightMessage>;

    /// Outgoing releases awaiting completion.
    spec fn session_releases(&self) -> Set<u16>;

    /// Subscriptions by the packet identifier of their SUBSCRIBE.
    spec fn session_subscriptions(&self) -> Map<u16, SubscriptionInfo>;

    /// The texts of confirmed topic filters.
    spec fn session_active(&self) -> Set<Seq<char>>;

    /// Hands out the next packet identifier: never 0, counting up from 1
    /// and wrapping from 65535 to 1.
    fn next_pid(&mut self) -> (res: u16)
        requires
            old(self).session_wf(),
        ensures
            final(self).session_wf(),
            res == old(self).session_next_pid(),
            res != 0,
            final(self).session_next_pid() == pid_next(res),
            final(self).session_pending() == old(self).session_pending(),
            final(self).session_releases() == old(self).session_releases(),
            final(self).session_subscriptions() == old(self).session_subscriptions(),
            final(self).session_active() == old(self).session_active(),
    ;

    /// Stores an outgoing QoS 1 or QoS 2 message awaiting acknowledgment.
    fn store_outgoing_publish(&mut self, pid: u16, message: InflightMessage) -> (res: Result<
        (),
        MqttError,
    >)
        requires
            old(self).session_wf(),
        ensures
            final(self).session_wf(),
            res is Ok ==> final(self).session_pending() == old(self).session_pending().insert(
                pid,
                message,
            ),
            res is Err ==> final(self).session_pending() == old(self).session_pending(),
            final(self).session_next_pid() == old(self).session_next_pid(),
            final(self).session_releases() == old(self).session_releases(),
            final(self).session_subscriptions() == old(self).session_subscriptions(),
            final(self).session_active() == old(self).session_active(),
    ;

    /// Records a retransmission of a pending message (one more retry, sent
    /// `now`) and returns a copy of it, or `None` when nothing is pending
    /// under `pid`.
    fn retry_outgoing_publish(&mut self, pid: u16, now: u64) -> (res: Option<InflightMessage>)
        requires
            old(self).session_wf(),
            old(self).session_pending().contains_key(pid) ==> old(self).session_pending()[pid].retry_count
                < u8::MAX,
        ensures
            final(self).session_wf(),
            !old(self).session_pending().contains_key(pid) ==> res is None && final(self).session_pending() == old(self).session_pending(),
            old(self).session_pending().contains_key(pid) ==> {
                let m = old(self).session_pending()[pid];
                &&& final(self).session_pending() == old(self).session_pending().insert(
                    pid,
                    (InflightMessage { retry_count: (m.retry_count + 1) as u8, timestamp: now, ..m }),
                )
                &&& res matches Some(c) && c.same_as(&final(self).session_pending()[pid])
            },
            final(self).session_next_pid() == old(self).session_next_pid(),
            final(self).session_releases() == old(self).session_releases(),
            final(self).session_subscriptions() == old(self).session_subscriptions(),
            final(self).session_active() == old(self).session_active(),
    ;

    /// Removes a pending message after its acknowledgment and returns it.
    fn complete_outgoing_publish(&mut self, pid: u16) -> (res: Option<InflightMessage>)
        requires
            old(self).session_wf(),
        ensures
            final(self).session_wf(),
            final(self).session_pending() == old(self).session_pending().remove(pid),
            old(self).session_pending().contains_key(pid) ==> res == Some(
                old(self).session_pending()[pid],
            ),
            !old(self).session_pending().contains_key(pid) ==> res is None,
            final(self).session_next_pid() == old(self).session_next_pid(),
            final(self).session_releases() == old(self).session_releases(),
            final(self).session_subscriptions() == old(self).session_subscriptions(),
            final(self).session_active() == old(self).session_active(),
    ;

    /// The packet identifiers of all pending messages, each once.
    fn pending_outgoing_publishes(&self) -> (res: Vec<u16>)
        requires
            self.session_wf(),
        ensures
            res@.no_duplicates(),
            res@.to_set() == self.session_pending().dom(),
    ;

    /// Records that a PUBREL was sent and awaits its PUBCOMP.
    fn store_outgoing_pubrel(&mut self, pid: u16) -> (res: Result<(), MqttError>)
        requires
            old(self).session_wf(),
        ensures
            final(self).session_wf(),
            res is Ok ==> final(self).session_releases() == old(self).session_releases().insert(
                pid,
            ),
            res is Err ==> final(self).session_releases() == old(self).session_releases(),
            final(self).session_next_pid() == old(self).session_next_pid(),
            final(self).session_pending() == old(self).session_pending(),
            final(self).session_subscriptions() == old(self).session_subscriptions(),
            final(self).session_active() == old(self).session_active(),
    ;

    /// Forgets a PUBREL after its PUBCOMP; returns the identifier when it
    /// was awaited.
    fn complete_outgoing_pubrel(&mut self, pid: u16) -> (res: Option<u16>)
        requires
            old(self).session_wf(),
        ensures
            final(self).session_wf(),
            final(self).session_releases() == old(self).session_releases().remove(pid),
            res == (if old(self).session_releases().contains(pid) {
                Some(pid)
            } else {
                None
            }),
            final(self).session_next_pid() == old(self).session_next_pid(),
            final(self).session_pending() == old(self).session_pending(),
            final(self).session_subscriptions() == old(self).session_subscriptions(),
            final(self).session_active() == old(self).session_active(),
    ;

    /// The packet identifiers of all awaited PUBRELs, each once.
    fn pending_outgoing_pubrels(&self) -> (res: Vec<u16>)
        requires
            self.session_wf(),
        ensures
            res@.no_duplicates(),
            res@.to_set() == self.session_releases(),
    ;

    /// Adds a new pending subscription.
    fn add_subscription(&mut self, pid: u16, topic_filter: TopicFilter, qos: QoS) -> (res: Result<
        (),
        MqttError,
    >)
        requires
            old(self).session_wf(),
        ensures
            final(self).session_wf(),
            res is Ok ==> final(self).session_subscriptions() == old(self).session_subscriptions().insert(
                pid,
                (SubscriptionInfo {
                    topic_filter,
                    qos,
                    state: SubscriptionState::Pending,
                    retry_count: 0,
                }),
            ),
            res is Err ==> final(self).session_subscriptions() == old(self).session_subscriptions(),
            final(self).session_next_pid() == old(self).session_next_pid(),
            final(self).session_pending() == old(self).session_pending(),
            final(self).session_releases() == old(self).session_releases(),
            final(self).session_active() == old(self).session_active(),
    ;

    /// Confirms a subscription from the return codes of its SUBACK; only
    /// the first is read. A granted subscription (code 0, 1 or 2) becomes
    /// active and its filter confirmed; a refused one fails. Without such
    /// a subscription or return code nothing changes.
    fn confirm_subscription(&mut self, pid: u16, return_codes: &[u8]) -> (res: Result<
        (),
        MqttError,
    >)
        requires
            old(self).session_wf(),
        ensures
            final(self).session_wf(),
            !old(self).session_subscriptions().contains_key(pid) || return_codes@.len() == 0 ==> res is Ok
                && final(self).session_subscriptions() == old(self).session_subscriptions()
                && final(self).session_active() == old(self).session_active(),
            old(self).session_subscriptions().contains_key(pid) && return_codes@.len() > 0 && res is Ok
                ==> {
                let info = old(self).session_subscriptions()[pid];
                let code = return_codes@[0];
                &&& final(self).session_subscriptions() == old(self).session_subscriptions().insert(pid, confirmed_info(info, code))
                &&& code <= 2 ==> final(self).session_active() == old(self).session_active().insert(info.topic_filter@)
                &&& code > 2 ==> final(self).session_active() == old(self).session_active()
            },
            final(self).session_next_pid() == old(self).session_next_pid(),
            final(self).session_pending() == old(self).session_pending(),
            final(self).session_releases() == old(self).session_releases(),
    ;

    /// Removes the subscriptions to a topic filter and forgets the filter as
    /// confirmed; returns one of the removed subscriptions, or `None` when
    /// there was none.
    fn remove_subscription(&mut self, topic_filter: &TopicFilter) -> (res: Option<SubscriptionInfo>)
        requires
            old(self).session_wf(),
        ensures
            final(self).session_wf(),
            final(self).session_subscriptions() == without_filter(
                old(self).session_subscriptions(),
                topic_filter@,
            ),
            final(self).session_active() == old(self).session_active().remove(topic_filter@),
            has_filter(old(self).session_subscriptions(), topic_filter@) ==> (res matches Some(info)
                && info.topic_filter@ == topic_filter@ && exists|k: u16|
                old(self).session_subscriptions().contains_key(k)
                    && old(self).session_subscriptions()[k] == info),
            !has_filter(old(self).session_subscriptions(), topic_filter@) ==> res is None,
            final(self).session_next_pid() == old(self).session_next_pid(),
            final(self).session_pending() == old(self).session_pending(),
            final(self).session_releases() == old(self).session_releases(),
    ;

    /// Clears all session state; packet identifiers start again at 1.
    fn clear(&mut self)
        requires
            old(self).session_wf(),
        ensures
            final(self).session_wf(),
            final(self).session_next_pid() == 1,
            final(self).session_pending() == Map::<u16, InflightMessage>::empty(),
            final(self).session_releases() == Set::<u16>::empty(),
            final(self).session_subscriptions() == Map::<u16, SubscriptionInfo>::empty(),
            final(self).session_active() == Set::<Seq<char>>::empty(),
    ;
}

impl SessionState for InMemorySession {
    open spec fn session_wf(&self) -> bool {
        self.wf()
    }

    open spec fn session_next_pid(&self) -> u16 {
        self.spec_next_pid()
    }

    open spec fn session_pending(&self) -> Map<u16, InflightMessage> {
        self.pending()
    }

    open spec fn session_releases(&self) -> Set<u16> {
        self.releases()
    }

    open spec fn session_subscriptions(&self) -> Map<u16, SubscriptionInfo> {
        self.subscriptions()
    }

    open spec fn session_active(&self) -> Set<Seq<char>> {
        self.active()
    }

    fn next_pid(&mut self) -> (res: u16) {
        InMemorySession::next_pid(self)
    }

    fn store_outgoing_publish(&mut self, pid: u16, message: InflightMessage) -> (res: Result<
        (),
        MqttError,
    >) {
        InMemorySession::store_outgoing_publish(self, pid, message)
    }

    fn retry_outgoing_publish(&mut self, pid: u16, now: u64) -> (res: Option<InflightMessage>) {
        let res = InMemorySession::retry_outgoing_publish(self, pid, now);
        proof {
            if old(self).pending().contains_key(pid) {
                let m = old(self).pending()[pid];
                assert(self.pending() =~= old(self).pending().insert(
                    pid,
                    InflightMessage { retry_count: (m.retry_count + 1) as u8, timestamp: now, ..m },
                ));
            }
        }
        res
    }

    fn complete_outgoing_publish(&mut self, pid: u16) -> (res: Option<InflightMessage>) {
        InMemorySession::complete_outgoing_publish(self, pid)
    }

    fn pending_outgoing_publishes(&self) -> (res: Vec<u16>) {
        self.pending_publish_ids()
    }

    fn store_outgoing_pubrel(&mut self, pid: u16) -> (res: Result<(), MqttError>) {
        InMemorySession::store_outgoing_pubrel(self, pid)
    }

    fn complete_outgoing_pubrel(&mut self, pid: u16) -> (res: Option<u16>) {
        InMemorySession::complete_outgoing_pubrel(self, pid)
    }

    fn pending_outgoing_pubrels(&self) -> (res: Vec<u16>) {
        self.pending_pubrel_ids()
    }

    fn add_subscription(&mut self, pid: u16, topic_filter: TopicFilter, qos: QoS) -> (res: Result<
        (),
        MqttError,
    >) {
        InMemorySession::add_subscription(self, pid, topic_filter, qos)
    }

    fn confirm_subscription(&mut self, pid: u16, return_codes: &[u8]) -> (res: Result<
        (),
        MqttError,
    >) {
        InMemorySession::confirm_subscription(self, pid, return_codes)
    }

    fn remove_subscription(&mut self, topic_filter: &TopicFilter) -> (res: Option<SubscriptionInfo>) {
        InMemorySession::remove_subscription(self, topic_filter)
    }

    fn clear(&mut self) {
        InMemorySession::clear(self)
    }
}

/// A well-formed session never hands out packet identifier 0 and never
/// holds more subscriptions, or more confirmed topic filters, than its
/// capacity.
pub proof fn lemma_session_bounds(session: &InMemorySession)
    requires
        session.wf(),
    ensures
        session.spec_next_pid() != 0,
        session.subscriptions().len() <= session.capacity(),
        session.active().len() <= session.capacity(),
{
}

/// What the session gives back is what was stored: completing the
/// message just stored under a packet identifier returns that message and
/// leaves the other pending messages as they were.
pub proof fn lemma_store_then_complete(
    pending: Map<u16, InflightMessage>,
    pid: u16,
    message: InflightMessage,
)
    ensures
        pending.insert(pid, message).contains_key(pid),
        pending.insert(pid, message)[pid] == message,
        pending.insert(pid, message).remove(pid) == pending.remove(pid),
{
    assert(pending.insert(pid, message).remove(pid) =~= pending.remove(pid));
}

/// A subscription's life: once a subscription is recorded under the
/// packet identifier of its SUBSCRIBE, a SUBACK that grants it (return
/// code 0, 1 or 2), while the session has room for another confirmed
/// filter, makes it active and its filter subscribed; a SUBACK that
/// refuses it marks it failed and subscribes nothing. Removing the
/// subscriptions to its filter afterwards leaves none to that filter and
/// forgets the filter.
pub proof fn lemma_subscription_lifecycle(
    before: InMemorySession,
    recorded: InMemorySession,
    confirmed: InMemorySession,
    pid: u16,
    filter: TopicFilter,
    qos: QoS,
    code: u8,
    res: Result<(), MqttError>,
)
    requires
        before.wf(),
        recorded.subscriptions() == before.subscriptions().insert(
            pid,
            SubscriptionInfo {
                topic_filter: filter,
                qos,
                state: SubscriptionState::Pending,
                retry_count: 0,
            },
        ),
        recorded.active() == before.active(),
        recorded.capacity() == before.capacity(),
        confirm_step(recorded, confirmed, pid, seq![code], res),
    ensures
        confirmed.subscriptions()[pid].topic_filter == filter,
        forall|k: u16| #[trigger]
            without_filter(confirmed.subscriptions(), filter@).contains_key(k) ==> without_filter(
                confirmed.subscriptions(),
                filter@,
            )[k].topic_filter@ != filter@,
        code <= 2 && before.active().len() < before.capacity() ==> {
            &&& res is Ok
            &&& confirmed.subscriptions()[pid].state == SubscriptionState::Active
            &&& confirmed.active().contains(filter@)
            &&& !confirmed.active().remove(filter@).contains(filter@)
        },
        code > 2 ==> {
            &&& res is Ok
            &&& confirmed.subscriptions()[pid].state == SubscriptionState::Failed
            &&& confirmed.active() == before.active()
        },
{
    assert(recorded.subscriptions().contains_key(pid));
    assert(seq![code][0] == code);
}

/// Unsubscribing is complete: once the subscriptions to a list of topic
/// filters are removed, no subscription to any of them is left, every
/// other subscription stays as it was, and none of them stays confirmed.
pub proof fn lemma_unsubscribed_filters_gone(
    subs: Map<u16, SubscriptionInfo>,
    active: Set<Seq<char>>,
    filters: Seq<Seq<char>>,
)
    ensures
        forall|k: u16| #[trigger]
            without_filters(subs, filters).contains_key(k) ==> !filters.contains(
                without_filters(subs, filters)[k].topic_filter@,
            ),
        forall|k: u16|
            subs.contains_key(k) && !filters.contains(#[trigger] subs[k].topic_filter@) ==> without_filters(
                subs,
                filters,
            ).contains_key(k) && without_filters(subs, filters)[k] == subs[k],
        forall|i: int|
            0 <= i < filters.len() ==> !active.difference(filters.to_set()).contains(
                #[trigger] filters[i],
            ),
{
    assert forall|i: int| 0 <= i < filters.len() implies !active.difference(
        filters.to_set(),
    ).contains(#[trigger] filters[i]) by {
        assert(filters.contains(filters[i]));
    }
}

impl Default for InMemorySession {
    fn default() -> (res: Self)
        ensures
            res.wf(),
            res.spec_next_pid() == 1,
            res.is_empty(),
            res.capacity() == 32,
    {
        Self::new(32)
    }
}

} // verus!
