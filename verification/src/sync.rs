//! Fleet telemetry: store-and-forward queueing of metrics for the fleet
//! MQTT broker.
use vstd::prelude::*;

use crate::clock::Timestamp;
use crate::config::ConnectivitySection;
use crate::text::{decimal_digits, lemma_decimal_digits_injective, lemma_decimal_digits_len, push_signed, signed_text};

verus! {

/// Name of the queue file of a message on `topic` queued at
/// `timestamp_nanos` (nanoseconds since the Unix epoch):
/// `{topic}-{timestamp_nanos}.json`.
pub open spec fn queue_file_name(topic: Seq<char>, timestamp_nanos: int) -> Seq<char> {
    topic + "-"@ + signed_text(timestamp_nanos) + ".json"@
}

/// The stamp of the next queue file, given the clock reading `reading`
/// (nanoseconds since the epoch) and the stamp of the last file queued: the
/// reading when it is past the last stamp, else one past the last stamp;
/// `None` when the last stamp is the largest `i64`, past which no stamp exists.
pub open spec fn next_stamp(reading: int, last: Option<i64>) -> Option<int> {
    match last {
        None => Some(reading),
        Some(l) => if reading > l {
            Some(reading)
        } else if l < i64::MAX {
            Some(l + 1)
        } else {
            None
        },
    }
}

/// Queue files stamped at different non-negative times have different names,
/// so one queued message never overwrites another.
pub proof fn lemma_queue_file_names_distinct(topic: Seq<char>, t1: int, t2: int)
    requires
        0 <= t1,
        0 <= t2,
        t1 != t2,
    ensures
        queue_file_name(topic, t1) != queue_file_name(topic, t2),
{
    let n1 = queue_file_name(topic, t1);
    let n2 = queue_file_name(topic, t2);
    let d1 = decimal_digits(t1 as nat);
    let d2 = decimal_digits(t2 as nat);
    if n1 == n2 {
        reveal_strlit("-");
        reveal_strlit(".json");
        assert(signed_text(t1) == d1 && signed_text(t2) == d2);
        let start = topic.len() + 1;
        assert(n1.subrange(start as int, n1.len() - 5) =~= d1);
        assert(n2.subrange(start as int, n2.len() - 5) =~= d2);
        lemma_decimal_digits_injective(t1 as nat, t2 as nat);
    }
}

/// Law (stamped with the clock): a queue file is stamped with the clock
/// reading itself whenever the clock has moved past the last stamp; only when
/// it has not is the stamp moved, to just past the last one. Either way the
/// stamp is at least the reading and past the last stamp.
pub proof fn lemma_stamp_follows_clock(reading: int, last: Option<i64>)
    requires
        reading <= i64::MAX,
    ensures
        (last is None || reading > last->Some_0) ==> next_stamp(reading, last) == Some(reading),
        last is Some && reading <= last->Some_0 && last->Some_0 < i64::MAX ==> next_stamp(
            reading,
            last,
        ) == Some(last->Some_0 + 1),
        next_stamp(reading, last) is None <==> last == Some(i64::MAX),
        next_stamp(reading, last) matches Some(t) ==> t >= reading && (last matches Some(l)
            ==> t > l),
{
}

/// Fleet synchronisation with store-and-forward capability: while no broker
/// connection exists, every message is queued as a file in `queue_dir`.
/// `last_stamp` is the stamp of the last file this instance named; stamps
/// strictly increase, so no two messages share a file.
pub struct FleetSync {
    broker: String,
    port: u16,
    queue_dir: String,
    last_stamp: Option<i64>,
}

impl FleetSync {
    /// Broker host name.
    pub closed spec fn spec_broker(&self) -> Seq<char> {
        self.broker@
    }

    /// Broker port.
    pub closed spec fn spec_port(&self) -> u16 {
        self.port
    }

    /// Directory that holds queued messages.
    pub closed spec fn spec_queue_dir(&self) -> Seq<char> {
        self.queue_dir@
    }

    /// Stamp of the last queue file named, if any.
    pub closed spec fn spec_last_stamp(&self) -> Option<i64> {
        self.last_stamp
    }

    /// Create a new fleet sync instance for the configured broker, queueing
    /// into `queue_dir`.
    pub fn new(config: &ConnectivitySection, queue_dir: &str) -> (sync: Self)
        ensures
            sync.spec_broker() == config.mqtt_broker@,
            sync.spec_port() == config.mqtt_port,
            sync.spec_queue_dir() == queue_dir@,
            sync.spec_last_stamp() is None,
    {
        FleetSync {
            broker: config.mqtt_broker.clone(),
            port: config.mqtt_port,
            queue_dir: queue_dir.to_owned(),
            last_stamp: None,
        }
    }

    /// Broker host name.
    pub fn broker(&self) -> (b: &str)
        ensures
            b@ == self.spec_broker(),
    {
        self.broker.as_str()
    }

    /// Broker port.
    pub fn port(&self) -> (p: u16)
        ensures
            p == self.spec_port(),
    {
        self.port
    }

    /// Name of the queue file for a message on `topic` queued at
    /// `timestamp_nanos`.
    pub fn queue_file_name(topic: &str, timestamp_nanos: i64) -> (name: String)
        ensures
            name@ == queue_file_name(topic@, timestamp_nanos as int),
    {
        let mut name = topic.to_owned();
        name.append("-");
        push_signed(&mut name, timestamp_nanos);
        name.append(".json");
        assert(name@ =~= queue_file_name(topic@, timestamp_nanos as int));
        name
    }

    /// The stamp of the next queue file for the clock reading `reading`, after
    /// the file stamped `last`.
    pub fn stamp_after(reading: i64, last: Option<i64>) -> (stamp: Option<i64>)
        ensures
            match stamp {
                Some(t) => next_stamp(reading as int, last) == Some(t as int),
                None => next_stamp(reading as int, last) is None,
            },
    {
        match last {
            None => Some(reading),
            Some(l) => if reading > l {
                Some(reading)
            } else if l < i64::MAX {
                Some(l + 1)
            } else {
                None
            },
        }
    }

    /// Name of the queue file for a message on `topic` queued now. The stamp
    /// is the current time in nanoseconds since the epoch (0 when that does
    /// not fit in an `i64`), moved past the last stamp where the clock has
    /// not advanced beyond it. `None` when the last stamp was the largest
    /// `i64`; then nothing changes.
    pub fn next_queue_file_name(&mut self, topic: &str) -> (name: Option<String>)
        ensures
            final(self).spec_broker() == old(self).spec_broker(),
            final(self).spec_port() == old(self).spec_port(),
            final(self).spec_queue_dir() == old(self).spec_queue_dir(),
            name is None <==> old(self).spec_last_stamp() == Some(i64::MAX),
            name is None ==> final(self).spec_last_stamp() == old(self).spec_last_stamp(),
            name matches Some(n) ==> {
                &&& final(self).spec_last_stamp() matches Some(t)
                &&& t >= 0
                &&& n@ == queue_file_name(topic@, t as int)
                &&& old(self).spec_last_stamp() matches Some(l) ==> l < t
            },
    {
        let reading = match Timestamp::now().nanos_since_epoch() {
            Some(n) => n,
            None => 0,
        };
        assert(reading >= 0);
        self.queue_file_name_at(topic, reading)
    }

    /// Name of the queue file for a message on `topic` queued when the clock
    /// reads `reading` (nanoseconds since the epoch): the file is stamped
    /// `next_stamp(reading, last stamp)`, which becomes the last stamp.
    /// `None` when no stamp is left; then nothing changes.
    pub fn queue_file_name_at(&mut self, topic: &str, reading: i64) -> (name: Option<String>)
        ensures
            final(self).spec_broker() == old(self).spec_broker(),
            final(self).spec_port() == old(self).spec_port(),
            final(self).spec_queue_dir() == old(self).spec_queue_dir(),
            match next_stamp(reading as int, old(self).spec_last_stamp()) {
                Some(t) => {
                    &&& final(self).spec_last_stamp() == Some(t as i64)
                    &&& name matches Some(n) && n@ == queue_file_name(topic@, t)
                },
                None => name is None && final(self).spec_last_stamp() == old(self).spec_last_stamp(),
            },
    {
        match Self::stamp_after(reading, self.last_stamp) {
            Some(t) => {
                self.last_stamp = Some(t);
                Some(Self::queue_file_name(topic, t))
            },
            None => None,
        }
    }

    /// Directory that holds queued messages.
    pub fn queue_dir(&self) -> (d: &str)
        ensures
            d@ == self.spec_queue_dir(),
    {
        self.queue_dir.as_str()
    }
}

} // verus!
