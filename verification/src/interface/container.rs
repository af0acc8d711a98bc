//! The container runner: polls the SQS queues under test and keeps what arrives.
use vstd::prelude::*;

verus! {

/// A kind of channel the runner can listen on.
#[derive(Debug, Clone)]
pub enum Channels {
    SQS { queue_url: String },
}

/// One channel under test.
#[derive(Debug, Clone)]
pub struct ChannelUnderTest {
    pub channel_type: Channels,
}

/// The channels a test run listens on.
#[derive(Debug, Clone)]
pub struct TestConfig {
    pub channels_under_test: Vec<ChannelUnderTest>,
}

/// The queue a channel reads.
pub open spec fn channel_queue(c: ChannelUnderTest) -> Seq<char> {
    match c.channel_type {
        Channels::SQS { queue_url } => queue_url@,
    }
}

/// Runs a test configuration.
pub struct ContainerRunner {
    config: TestConfig,
}

impl ContainerRunner {
    pub closed spec fn spec_channels(&self) -> Seq<ChannelUnderTest> {
        self.config.channels_under_test@
    }

    pub fn new(test_config: TestConfig) -> (res: Self)
        ensures
            res.spec_channels() == test_config.channels_under_test@,
    {
        ContainerRunner { config: test_config }
    }

    /// The queues to poll, one for each channel under test, in order.
    pub fn queue_urls(&self) -> (res: Vec<String>)
        ensures
            res@.map_values(|u: String| u@) == self.spec_channels().map_values(|c: ChannelUnderTest| channel_queue(c)),
    {
        let channels = &self.config.channels_under_test;
        let n = channels.len();
        let mut res: Vec<String> = Vec::new();
        let mut i: usize = 0;
        while i < n
            invariant
                n == channels@.len(),
                i <= n,
                res@.len() == i,
                forall|j: int| 0 <= j < i ==> #[trigger] res@[j]@ == channel_queue(channels@[j]),
            decreases n - i,
        {
            match &channels[i].channel_type {
                Channels::SQS { queue_url } => {
                    res.push(queue_url.clone());
                },
            }
            i = i + 1;
        }
        assert(res@.map_values(|u: String| u@) =~= channels@.map_values(
            |c: ChannelUnderTest| channel_queue(c),
        ));
        res
    }
}

/// What the runner reads of a received SQS message.
#[derive(Debug, Clone)]
pub struct ReceivedMessage {
    pub body: Option<String>,
    pub receipt_handle: Option<String>,
}

/// One message to keep and then delete: its body and its receipt handle.
#[derive(Debug, Clone)]
pub struct Delivery {
    pub body: String,
    pub receipt_handle: String,
}

/// Whether `d` keeps the body of `message` and deletes it by its receipt handle.
pub open spec fn delivers(d: Delivery, message: ReceivedMessage) -> bool {
    &&& message.body matches Some(body) && d.body@ == body@
    &&& message.receipt_handle matches Some(handle) && d.receipt_handle@ == handle@
}

/// A delivery keeps exactly the message's body and deletes it by exactly its
/// receipt handle; a channel is read from exactly its queue URL.
pub proof fn law_deliveries_keep_messages(d: Delivery, message: ReceivedMessage, c: ChannelUnderTest)
    ensures
        delivers(d, message) <==> (message.body matches Some(b) && b@ == d.body@) && (
        message.receipt_handle matches Some(h) && h@ == d.receipt_handle@),
        c.channel_type matches Channels::SQS { queue_url } ==> channel_queue(c) == queue_url@,
{
}

/// Polls one SQS queue.
pub struct SqsConfig {
    pub queue_url: String,
}

impl SqsConfig {
    pub fn new(queue_url: String) -> (res: Self)
        ensures
            res.queue_url@ == queue_url@,
    {
        SqsConfig { queue_url }
    }

    /// What to do with one batch of received messages: keep each body and delete
    /// each message by its receipt handle, in order; no batch means no message.
    pub fn deliveries(messages: Option<Vec<ReceivedMessage>>) -> (res: Vec<Delivery>)
        requires
            messages matches Some(m) ==> forall|i: int| 0 <= i < m@.len() ==> (#[trigger] m@[i]).body is Some
                && m@[i].receipt_handle is Some,
        ensures
            messages is None ==> res@.len() == 0,
            messages matches Some(m) ==> res@.len() == m@.len() && forall|i: int|
                0 <= i < m@.len() ==> delivers(#[trigger] res@[i], m@[i]),
    {
        let mut res: Vec<Delivery> = Vec::new();
        match &messages {
            None => {},
            Some(m) => {
                let n = m.len();
                let mut i: usize = 0;
                while i < n
                    invariant
                        n == m@.len(),
                        i <= n,
                        forall|j: int| 0 <= j < m@.len() ==> (#[trigger] m@[j]).body is Some && m@[j].receipt_handle is Some,
                        res@.len() == i,
                        forall|j: int| 0 <= j < i ==> delivers(#[trigger] res@[j], m@[j]),
                    decreases n - i,
                {
                    let message = &m[i];
                    match (&message.body, &message.receipt_handle) {
                        (Some(body), Some(handle)) => {
                            res.push(Delivery { body: body.clone(), receipt_handle: handle.clone() });
                        },
                        _ => {
                            assert(false);
                        },
                    }
                    i = i + 1;
                }
            },
        }
        res
    }
}

} // verus!
