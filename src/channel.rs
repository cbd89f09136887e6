use vstd::prelude::*;
use vstd::string::StrSliceExecFns;
use crate::error::IngestError;

verus! {

/// One of the two telemetry streams, named after the arm it describes.
#[derive(Debug, Clone, Copy, PartialEq, Eq, Structural)]
pub enum Channel {
    LeftArm,
    RightArm,
}

/// Topic carrying the left arm's telemetry.
pub open spec fn left_topic() -> Seq<char> {
    "left_arm"@
}

/// Topic carrying the right arm's telemetry.
pub open spec fn right_topic() -> Seq<char> {
    "right_arm"@
}

/// The channel a topic names, if it names one.
pub open spec fn channel_of(topic: Seq<char>) -> Option<Channel> {
    if topic == left_topic() {
        Some(Channel::LeftArm)
    } else if topic == right_topic() {
        Some(Channel::RightArm)
    } else {
        None
    }
}

/// The topic that a channel is received on.
pub open spec fn topic_of(c: Channel) -> Seq<char> {
    match c {
        Channel::LeftArm => left_topic(),
        Channel::RightArm => right_topic(),
    }
}

/// Character-wise equality of two strings.
fn same_text(a: &str, b: &str) -> (r: bool)
    ensures
        r == (a@ == b@),
{
    let n = a.unicode_len();
    if n != b.unicode_len() {
        return false;
    }
    let mut i: usize = 0;
    while i < n
        invariant
            n == a@.len(),
            n == b@.len(),
            i <= n,
            forall|j: int| 0 <= j < i ==> a@[j] == b@[j],
        decreases n - i,
    {
        if a.get_char(i) != b.get_char(i) {
            return false;
        }
        i = i + 1;
    }
    assert(a@ =~= b@);
    true
}

impl Channel {
    /// Resolves the channel of a topic; any other topic is rejected.
    pub fn from_topic(topic: &str) -> (r: Result<Channel, IngestError>)
        ensures
            match channel_of(topic@) {
                Some(c) => r == Ok::<Channel, IngestError>(c),
                None => r == Err::<Channel, IngestError>(IngestError::InvalidChannel),
            },
            topic@ == left_topic() ==> r == Ok::<Channel, IngestError>(Channel::LeftArm),
            topic@ == right_topic() ==> r == Ok::<Channel, IngestError>(Channel::RightArm),
    {
        proof {
            reveal_strlit("left_arm");
            reveal_strlit("right_arm");
            assert(left_topic()[0] != right_topic()[0]);
        }
        if same_text(topic, "left_arm") {
            Ok(Channel::LeftArm)
        } else if same_text(topic, "right_arm") {
            Ok(Channel::RightArm)
        } else {
            Err(IngestError::InvalidChannel)
        }
    }

    /// The topic this channel is received on.
    pub fn topic(&self) -> (r: &'static str)
        ensures
            r@ == topic_of(*self),
    {
        match self {
            Channel::LeftArm => "left_arm",
            Channel::RightArm => "right_arm",
        }
    }

    /// The fixed insert statement of this channel's destination table. The
    /// destination comes from this closed list, never from the topic text.
    pub fn insert_statement(&self) -> (r: &'static str)
        ensures
            *self == Channel::LeftArm ==> r@ == left_insert()@,
            *self == Channel::RightArm ==> r@ == right_insert()@,
    {
        match self {
            Channel::LeftArm => "INSERT INTO left_arm (timestamp, data) VALUES ($1, $2::jsonb)",
            Channel::RightArm => "INSERT INTO right_arm (timestamp, data) VALUES ($1, $2::jsonb)",
        }
    }
}

/// Insert statement of the left arm's table.
pub open spec fn left_insert() -> &'static str {
    "INSERT INTO left_arm (timestamp, data) VALUES ($1, $2::jsonb)"
}

/// Insert statement of the right arm's table.
pub open spec fn right_insert() -> &'static str {
    "INSERT INTO right_arm (timestamp, data) VALUES ($1, $2::jsonb)"
}

/// Delivery guarantee of one subscription.
#[derive(Debug, Clone, Copy, PartialEq, Eq, Structural)]
pub enum DeliveryGuarantee {
    /// Level 0: fire and forget.
    AtMostOnce,
    /// Level 1: delivered at least once.
    AtLeastOnce,
}

impl DeliveryGuarantee {
    /// The guarantee of a numeric level; only 0 and 1 are accepted.
    pub fn from_level(level: i32) -> (r: Option<DeliveryGuarantee>)
        ensures
            level == 0 ==> r == Some(DeliveryGuarantee::AtMostOnce),
            level == 1 ==> r == Some(DeliveryGuarantee::AtLeastOnce),
            level != 0 && level != 1 ==> r is None,
    {
        if level == 0 {
            Some(DeliveryGuarantee::AtMostOnce)
        } else if level == 1 {
            Some(DeliveryGuarantee::AtLeastOnce)
        } else {
            None
        }
    }

    /// The numeric level of this guarantee.
    pub fn level(&self) -> (r: i32)
        ensures
            *self == DeliveryGuarantee::AtMostOnce ==> r == 0,
            *self == DeliveryGuarantee::AtLeastOnce ==> r == 1,
    {
        match self {
            DeliveryGuarantee::AtMostOnce => 0,
            DeliveryGuarantee::AtLeastOnce => 1,
        }
    }
}

/// One (channel, delivery guarantee) pair to subscribe with.
#[derive(Debug, Clone, Copy, PartialEq, Eq, Structural)]
pub struct Subscription {
    pub channel: Channel,
    pub guarantee: DeliveryGuarantee,
}

/// The fixed, ordered subscription list: the left arm, then the right arm, each
/// with its own guarantee.
pub fn subscriptions(left: DeliveryGuarantee, right: DeliveryGuarantee) -> (r: Vec<Subscription>)
    ensures
        r@ == seq![
            Subscription { channel: Channel::LeftArm, guarantee: left },
            Subscription { channel: Channel::RightArm, guarantee: right },
        ],
{
    let mut v: Vec<Subscription> = Vec::new();
    v.push(Subscription { channel: Channel::LeftArm, guarantee: left });
    v.push(Subscription { channel: Channel::RightArm, guarantee: right });
    assert(v@ =~= seq![
        Subscription { channel: Channel::LeftArm, guarantee: left },
        Subscription { channel: Channel::RightArm, guarantee: right },
    ]);
    v
}

/// A topic is accepted exactly when it is one of the two channel topics, and a
/// channel's own topic resolves back to that channel.
pub proof fn lemma_topic_round_trip(c: Channel)
    ensures
        channel_of(topic_of(c)) == Some(c),
{
    assert(left_topic() != right_topic()) by {
        reveal_strlit("left_arm");
        reveal_strlit("right_arm");
        assert(left_topic()[0] != right_topic()[0]);
    }
}

} // verus!
