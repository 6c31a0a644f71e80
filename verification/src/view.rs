//! What the desktop window shows and how its controls turn into commands:
//! the connection form and the text of the topics table.

use crate::decimal::{decimal_digits, i64_to_decimal, signed_decimal, usize_to_decimal};
use crate::metadata::{Metadata, Topic, TopicView};
use crate::rt::Command;
use vstd::prelude::*;
use vstd::string::StringExecFns;

verus! {

/// The address the connection form starts with.
pub open spec fn default_address() -> Seq<char> {
    "localhost:29092"@
}

/// The text of the last-message-timestamp column: the timestamp in decimal,
/// or `N/A` when there is none.
pub open spec fn timestamp_text(ts: Option<i64>) -> Seq<char> {
    match ts {
        Some(t) => signed_decimal(t as int),
        None => "N/A"@,
    }
}

/// The cells of a topic's row: name, partitions, messages count, last
/// message timestamp, size.
pub open spec fn row_text(t: TopicView) -> Seq<Seq<char>> {
    seq![
        t.name,
        decimal_digits(t.partitions_count as nat),
        decimal_digits(t.messages_count as nat),
        timestamp_text(t.last_message_timestamp),
        decimal_digits(t.size as nat),
    ]
}

/// The titles of the topics table's columns.
pub open spec fn header_text() -> Seq<Seq<char>> {
    seq!["Topic"@, "Partitions"@, "Messages count"@, "Last message timestamp"@, "size"@]
}

/// The text of a row of strings.
pub open spec fn cells(row: Seq<String>) -> Seq<Seq<char>> {
    row.map_values(|c: String| c@)
}

/// The text of the last-message-timestamp column.
pub fn timestamp_label(ts: Option<i64>) -> (r: String)
    ensures
        r@ == timestamp_text(ts),
{
    match ts {
        Some(t) => i64_to_decimal(t),
        None => String::from_str("N/A"),
    }
}

/// The cells of a topic's row in the topics table.
pub fn topic_row(topic: &Topic) -> (row: Vec<String>)
    ensures
        cells(row@) == row_text(topic@),
{
    let mut row: Vec<String> = Vec::new();
    row.push(topic.name().clone());
    row.push(usize_to_decimal(*topic.partitions()));
    row.push(usize_to_decimal(*topic.messages_count()));
    row.push(timestamp_label(*topic.last_message_timestamp()));
    row.push(usize_to_decimal(*topic.size()));
    assert(cells(row@) =~= row_text(topic@));
    row
}

/// The titles of the topics table's columns, one per cell of a row.
pub fn topics_table_header() -> (r: Vec<String>)
    ensures
        cells(r@) == header_text(),
{
    let mut r: Vec<String> = Vec::new();
    r.push(String::from_str("Topic"));
    r.push(String::from_str("Partitions"));
    r.push(String::from_str("Messages count"));
    r.push(String::from_str("Last message timestamp"));
    r.push(String::from_str("size"));
    assert(cells(r@) =~= header_text());
    r
}

/// The rows of the topics table: none while no metadata was fetched,
/// otherwise one row per topic, in order.
pub fn topics_table(metadata: &Option<Metadata>) -> (r: Option<Vec<Vec<String>>>)
    ensures
        metadata is None <==> r is None,
        metadata matches Some(m) ==> (r matches Some(rows) && rows@.len() == m@.len() && forall|
            i: int,
        |
            0 <= i < rows@.len() ==> cells(#[trigger] rows@[i]@) == row_text(m@[i])),
{
    match metadata {
        None => None,
        Some(m) => {
            let topics = m.topics();
            let n: usize = topics.len();
            let mut rows: Vec<Vec<String>> = Vec::new();
            for i in 0..n
                invariant
                    n == topics@.len(),
                    topics@.map_values(|t: Topic| t@) == m@,
                    rows@.len() == i,
                    forall|j: int| 0 <= j < i ==> cells(#[trigger] rows@[j]@) == row_text(m@[j]),
            {
                rows.push(topic_row(&topics[i]));
            }
            Some(rows)
        },
    }
}

/// Which screen the window shows.
pub enum Screen {
    /// The form to enter the cluster's address.
    ConnectToCluster,
    /// The table of the cluster's topics.
    TopicsTable,
}

/// The connection form of the window.
pub struct ClusterForm {
    pub cluster_address: String,
    pub connected: bool,
    pub connecting: bool,
}

impl ClusterForm {
    /// The form as the window opens: the default address, not connected.
    pub fn new() -> (r: ClusterForm)
        ensures
            r.cluster_address@ == default_address(),
            !r.connected,
            !r.connecting,
    {
        ClusterForm {
            cluster_address: String::from_str("localhost:29092"),
            connected: false,
            connecting: false,
        }
    }

    /// The screen shown: the topics table once connected, the form before.
    pub fn screen(&self) -> (r: Screen)
        ensures
            self.connected ==> r is TopicsTable,
            !self.connected ==> r is ConnectToCluster,
    {
        if self.connected {
            Screen::TopicsTable
        } else {
            Screen::ConnectToCluster
        }
    }

    /// Whether the form shows a spinner in place of its buttons: while a
    /// connection is being made.
    pub fn shows_spinner(&self) -> (r: bool)
        ensures
            r == self.connecting,
    {
        self.connecting
    }

    /// The command sent by the Connect button: a greeting for the address.
    pub fn connect_clicked(&self) -> (r: Command)
        ensures
            r matches Command::Greet(a) && a@ == self.cluster_address@,
    {
        Command::Greet(self.cluster_address.clone())
    }

    /// The command sent by the Spawn button: start fetching the metadata of
    /// the cluster at the address; the window then shows the topics table.
    pub fn spawn_clicked(&mut self) -> (r: Command)
        ensures
            r matches Command::SpawnMetadataFetcher(a) && a@ == old(self).cluster_address@,
            final(self).connected,
            final(self).connecting == old(self).connecting,
            final(self).cluster_address@ == old(self).cluster_address@,
    {
        self.connected = true;
        Command::SpawnMetadataFetcher(self.cluster_address.clone())
    }
}

} // verus!
