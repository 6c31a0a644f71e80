//! The cluster metadata that the inspector shows: one entry per topic.

use vstd::prelude::*;
use vstd::string::StringExecFns;

verus! {

/// Where to reach the cluster.
#[derive(Clone, Debug)]
pub struct ConsumerParams {
    pub address: String,
}

/// What one topic of the cluster is, as a mathematical value.
pub struct TopicView {
    pub name: Seq<char>,
    pub partitions_count: usize,
    pub messages_count: usize,
    pub last_message_timestamp: Option<i64>,
    pub size: usize,
}

/// One topic of the cluster.
#[derive(Debug)]
pub struct Topic {
    name: String,
    partitions_count: usize,
    messages_count: usize,
    last_message_timestamp: Option<i64>,
    size: usize,
}

/// What the broker reports of one topic: its name and how many partitions
/// it has.
#[derive(Clone, Debug)]
pub struct TopicListing {
    pub name: String,
    pub partition_count: usize,
}

/// The metadata of a cluster: its topics, in the order the broker listed them.
#[derive(Debug)]
pub struct Metadata {
    topics: Vec<Topic>,
}

impl View for Topic {
    type V = TopicView;

    closed spec fn view(&self) -> TopicView {
        TopicView {
            name: self.name@,
            partitions_count: self.partitions_count,
            messages_count: self.messages_count,
            last_message_timestamp: self.last_message_timestamp,
            size: self.size,
        }
    }
}

impl View for Metadata {
    type V = Seq<TopicView>;

    closed spec fn view(&self) -> Seq<TopicView> {
        self.topics@.map_values(|t: Topic| t@)
    }
}

/// The topic that a broker listing stands for: the listed name and partition
/// count, no messages counted, no last message, size zero.
pub open spec fn listed_topic(listing: TopicListing) -> TopicView {
    TopicView {
        name: listing.name@,
        partitions_count: listing.partition_count,
        messages_count: 0,
        last_message_timestamp: None,
        size: 0,
    }
}

/// A listed topic keeps the listed name, whole, and the listed partition
/// count, and starts with no messages counted, no last message and size zero.
pub proof fn lemma_listed_topic_keeps_listing(listing: TopicListing)
    ensures
        listed_topic(listing).name == listing.name@,
        listed_topic(listing).name.len() == listing.name@.len(),
        listed_topic(listing).partitions_count == listing.partition_count,
        listed_topic(listing).messages_count == 0,
        listed_topic(listing).last_message_timestamp is None,
        listed_topic(listing).size == 0,
{
}

/// Metadata built from two listings is the same exactly when the listings
/// name the same topics with the same partition counts, in the same order.
pub proof fn lemma_listing_determines_metadata(a: Seq<TopicListing>, b: Seq<TopicListing>)
    ensures
        a.map_values(|l: TopicListing| listed_topic(l)) == b.map_values(
            |l: TopicListing| listed_topic(l),
        ) <==> (a.len() == b.len() && forall|i: int|
            0 <= i < a.len() ==> (#[trigger] a[i]).name@ == (#[trigger] b[i]).name@
                && a[i].partition_count == b[i].partition_count),
{
    let ma = a.map_values(|l: TopicListing| listed_topic(l));
    let mb = b.map_values(|l: TopicListing| listed_topic(l));
    assert(ma.len() == a.len() && mb.len() == b.len());
    if ma == mb {
        assert forall|i: int| 0 <= i < a.len() implies (#[trigger] a[i]).name@ == (
        #[trigger] b[i]).name@ && a[i].partition_count == b[i].partition_count by {
            assert(ma[i] == listed_topic(a[i]));
            assert(mb[i] == listed_topic(b[i]));
            assert(ma[i] == mb[i]);
        }
    }
    if a.len() == b.len() && forall|i: int|
        0 <= i < a.len() ==> (#[trigger] a[i]).name@ == (#[trigger] b[i]).name@
            && a[i].partition_count == b[i].partition_count {
        assert(ma =~= mb);
    }
}

/// The message of the error returned when the fetch of metadata fails.
pub open spec fn fetch_error_text(detail: Seq<char>) -> Seq<char> {
    "failed to fetch metadata: "@ + detail
}

/// The message of the error returned when no consumer can be created.
pub open spec fn consumer_error_text(detail: Seq<char>) -> Seq<char> {
    "failed to create consumer: "@ + detail
}

impl Topic {
    pub fn name(&self) -> (r: &String)
        ensures
            r@ == self@.name,
    {
        &self.name
    }

    pub fn partitions(&self) -> (r: &usize)
        ensures
            *r == self@.partitions_count,
    {
        &self.partitions_count
    }

    pub fn messages_count(&self) -> (r: &usize)
        ensures
            *r == self@.messages_count,
    {
        &self.messages_count
    }

    pub fn last_message_timestamp(&self) -> (r: &Option<i64>)
        ensures
            *r == self@.last_message_timestamp,
    {
        &self.last_message_timestamp
    }

    pub fn size(&self) -> (r: &usize)
        ensures
            *r == self@.size,
    {
        &self.size
    }
}

impl Metadata {
    pub fn topics(&self) -> (r: &Vec<Topic>)
        ensures
            r@.map_values(|t: Topic| t@) == self@,
    {
        &self.topics
    }

    /// The metadata of a broker listing: one topic per listed topic, in the
    /// same order, each with the listed name and partition count.
    pub fn from_listing(listing: Vec<TopicListing>) -> (r: Metadata)
        ensures
            r@ == listing@.map_values(|l: TopicListing| listed_topic(l)),
            r@.len() == listing@.len(),
            forall|i: int|
                0 <= i < listing@.len() ==> {
                    &&& (#[trigger] r@[i]).name == listing@[i].name@
                    &&& r@[i].partitions_count == listing@[i].partition_count
                    &&& r@[i].messages_count == 0
                    &&& r@[i].last_message_timestamp is None
                    &&& r@[i].size == 0
                },
    {
        let mut topics: Vec<Topic> = Vec::new();
        let n: usize = listing.len();
        for i in 0..n
            invariant
                n == listing@.len(),
                topics@.len() == i,
                forall|j: int|
                    0 <= j < i ==> #[trigger] topics@[j]@ == listed_topic(listing@[j]),
        {
            let l = &listing[i];
            topics.push(
                Topic {
                    name: l.name.clone(),
                    partitions_count: l.partition_count,
                    messages_count: 0,
                    last_message_timestamp: None,
                    size: 0,
                },
            );
        }
        let r = Metadata { topics };
        assert(r@ =~= listing@.map_values(|l: TopicListing| listed_topic(l)));
        r
    }
}

impl Clone for Topic {
    /// A copy of the topic.
    fn clone(&self) -> (r: Topic)
        ensures
            r@ == self@,
    {
        Topic {
            name: self.name.clone(),
            partitions_count: self.partitions_count,
            messages_count: self.messages_count,
            last_message_timestamp: self.last_message_timestamp,
            size: self.size,
        }
    }
}

impl Clone for Metadata {
    /// A copy of the metadata.
    fn clone(&self) -> (r: Metadata)
        ensures
            r@ == self@,
    {
        let mut topics: Vec<Topic> = Vec::new();
        let n: usize = self.topics.len();
        for i in 0..n
            invariant
                n == self.topics@.len(),
                topics@.len() == i,
                forall|j: int| 0 <= j < i ==> #[trigger] topics@[j]@ == self.topics@[j]@,
        {
            topics.push(self.topics[i].clone());
        }
        let r = Metadata { topics };
        assert(r@ =~= self@);
        r
    }
}

impl Default for Metadata {
    /// Metadata without any topic.
    fn default() -> (r: Metadata)
        ensures
            r@ == Seq::<TopicView>::empty(),
    {
        let r = Metadata { topics: Vec::new() };
        assert(r@ =~= Seq::<TopicView>::empty());
        r
    }
}

/// The result of a metadata fetch: the metadata of the listed topics, or the
/// fetch error with its context.
pub fn metadata_from_fetch(fetched: Result<Vec<TopicListing>, String>) -> (r: Result<
    Metadata,
    String,
>)
    ensures
        fetched is Ok <==> r is Ok,
        fetched is Ok ==> r->Ok_0@ == fetched->Ok_0@.map_values(
            |l: TopicListing| listed_topic(l),
        ),
        fetched is Err ==> r->Err_0@ == fetch_error_text(fetched->Err_0@),
        fetched is Ok ==> r->Ok_0@.len() == fetched->Ok_0@.len(),
        fetched is Ok ==> forall|i: int|
            0 <= i < fetched->Ok_0@.len() ==> {
                &&& (#[trigger] r->Ok_0@[i]).name == fetched->Ok_0@[i].name@
                &&& r->Ok_0@[i].partitions_count == fetched->Ok_0@[i].partition_count
                &&& r->Ok_0@[i].messages_count == 0
                &&& r->Ok_0@[i].last_message_timestamp is None
                &&& r->Ok_0@[i].size == 0
            },
        fetched is Err ==> r->Err_0@ == "failed to fetch metadata: "@ + fetched->Err_0@,
{
    match fetched {
        Ok(listing) => Ok(Metadata::from_listing(listing)),
        Err(detail) => {
            let mut message = String::from_str("failed to fetch metadata: ");
            message.append(detail.as_str());
            Err(message)
        },
    }
}

/// The error message when no consumer can be created for the cluster.
pub fn consumer_creation_error(detail: String) -> (r: String)
    ensures
        r@ == consumer_error_text(detail@),
{
    let mut message = String::from_str("failed to create consumer: ");
    message.append(detail.as_str());
    message
}

impl PartialEq for Topic {
    /// Two topics are equal when they are the same in every field.
    fn eq(&self, other: &Topic) -> (r: bool) {
        let same_timestamp = match (self.last_message_timestamp, other.last_message_timestamp) {
            (Some(a), Some(b)) => a == b,
            (None, None) => true,
            _ => false,
        };
        let r = self.name == other.name && self.partitions_count == other.partitions_count
            && self.messages_count == other.messages_count && same_timestamp && self.size
            == other.size;
        proof {
            if r {
                assert(self@ =~= other@);
            }
        }
        r
    }
}

impl vstd::std_specs::cmp::PartialEqSpecImpl for Topic {
    open spec fn obeys_eq_spec() -> bool {
        true
    }

    open spec fn eq_spec(&self, other: &Topic) -> bool {
        self@ == other@
    }
}

impl PartialEq for Metadata {
    /// Two metadata are equal when they hold equal topics in the same order.
    fn eq(&self, other: &Metadata) -> (r: bool) {
        if self.topics.len() != other.topics.len() {
            assert(self@.len() != other@.len());
            return false;
        }
        let n: usize = self.topics.len();
        for i in 0..n
            invariant
                n == self.topics@.len(),
                n == other.topics@.len(),
                forall|j: int| 0 <= j < i ==> self@[j] == other@[j],
        {
            if !(self.topics[i] == other.topics[i]) {
                assert(self@[i as int] != other@[i as int]);
                return false;
            }
        }
        assert(self@ =~= other@);
        true
    }
}

impl vstd::std_specs::cmp::PartialEqSpecImpl for Metadata {
    open spec fn obeys_eq_spec() -> bool {
        true
    }

    open spec fn eq_spec(&self, other: &Metadata) -> bool {
        self@ == other@
    }
}

} // verus!
