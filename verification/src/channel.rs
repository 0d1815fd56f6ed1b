//! The two ends of the producer/consumer run.
//!
//! The bounded channel between them belongs to the async driver. The producer
//! here decides what is sent next and when the sending end is dropped; the
//! consumer decides what to do with each thing the receiving end yields.

use vstd::prelude::*;

verus! {

/// The capacity that the driver gives the channel.
pub const CAPACITY: usize = 10;

/// How many values the producer sends: the integers below this bound.
pub const BOUND: i32 = 10;

/// What the producer does next.
#[derive(Clone, Copy, Debug, PartialEq, Eq, Structural)]
pub enum ProducerStep {
    /// Send this value, waiting for room in the channel if it is full.
    Send(i32),
    /// Everything has been sent: drop the sending end.
    Close,
}

/// The sending task's state: the next integer to send.
#[derive(Debug)]
pub struct Producer {
    next: i32,
}

impl Producer {
    #[verifier::type_invariant]
    spec fn in_range(self) -> bool {
        0 <= self.next <= BOUND
    }

    /// The values already handed to the channel, oldest first.
    pub closed spec fn sent(self) -> Seq<i32> {
        Seq::new(self.next as nat, |k: int| k as i32)
    }

    /// The values still to be sent before the sending end is dropped, in the
    /// order in which they will go out.
    pub closed spec fn pending(self) -> Seq<i32> {
        Seq::new((BOUND - self.next) as nat, |k: int| (self.next + k) as i32)
    }

    /// A producer that has sent nothing yet.
    pub fn new() -> (producer: Producer)
        ensures
            producer.sent() == Seq::<i32>::empty(),
            producer.pending() == values(),
    {
        let producer = Producer { next: 0 };
        assert(producer.sent() =~= Seq::<i32>::empty());
        assert(producer.pending() =~= values());
        producer
    }

    /// Decides the producer's next move: the first pending value is sent, and
    /// once nothing is pending the sending end is dropped. At every moment
    /// what has been sent and what is pending make up the values of a run, so
    /// a producer that closes has sent all of them.
    pub fn step(&mut self) -> (step: ProducerStep)
        ensures
            old(self).pending().len() > 0 ==> {
                &&& step == ProducerStep::Send(old(self).pending().first())
                &&& final(self).pending() == old(self).pending().drop_first()
                &&& final(self).sent() == old(self).sent().push(old(self).pending().first())
            },
            old(self).pending().len() == 0 ==> {
                &&& step == ProducerStep::Close
                &&& final(self).pending() == old(self).pending()
                &&& final(self).sent() == old(self).sent()
            },
            old(self).sent() + old(self).pending() == values(),
            final(self).sent() + final(self).pending() == values(),
    {
        proof {
            use_type_invariant(&*self);
        }
        assert(self.sent() + self.pending() =~= values());
        if self.next < BOUND {
            let value: i32 = self.next;
            self.next = value + 1;
            assert(self.pending() =~= old(self).pending().drop_first());
            assert(self.sent() =~= old(self).sent().push(value));
            assert(self.sent() + self.pending() =~= values());
            ProducerStep::Send(value)
        } else {
            ProducerStep::Close
        }
    }
}

/// The integers from 0 up to, but not including, `BOUND`, in rising order.
pub open spec fn values() -> Seq<i32> {
    Seq::new(BOUND as nat, |k: int| k as i32)
}

/// What the consumer does with one thing that the receiving end yields.
#[derive(Clone, Copy, Debug, PartialEq, Eq, Structural)]
pub enum ConsumerStep {
    /// A value arrived: print it and receive again.
    Print(i32),
    /// The channel is closed and empty: stop receiving.
    Stop,
}

/// The consumer's reaction to what the receiving end yields.
pub open spec fn reaction(received: Option<i32>) -> ConsumerStep {
    match received {
        Some(value) => ConsumerStep::Print(value),
        None => ConsumerStep::Stop,
    }
}

/// Decides the consumer's move after one receive: a value is printed, and
/// the report that no more will arrive ends the loop.
pub fn consume(received: Option<i32>) -> (step: ConsumerStep)
    ensures
        step == reaction(received),
{
    match received {
        Some(value) => ConsumerStep::Print(value),
        None => ConsumerStep::Stop,
    }
}

/// What the receiving end of an ordered, lossless channel yields when `sent`
/// went in at the other end and that end was then dropped: every value once,
/// in the order sent, and then the report that no more will arrive.
pub open spec fn delivery(sent: Seq<i32>) -> Seq<Option<i32>> {
    Seq::new(sent.len() + 1, |k: int| if k < sent.len() { Some(sent[k]) } else { None })
}

/// The values that a consumer prints when the receiving end yields
/// `received`, one after the other: all those before the first report of
/// closure.
pub open spec fn printed(received: Seq<Option<i32>>) -> Seq<i32>
    decreases received.len(),
{
    if received.len() == 0 {
        Seq::empty()
    } else {
        match reaction(received.first()) {
            ConsumerStep::Print(value) => seq![value] + printed(received.drop_first()),
            ConsumerStep::Stop => Seq::empty(),
        }
    }
}

/// Over an ordered, lossless channel the consumer prints exactly what was
/// sent: nothing twice, nothing left out, nothing out of order.
pub proof fn lemma_consumer_prints_what_was_sent(sent: Seq<i32>)
    ensures
        printed(delivery(sent)) == sent,
    decreases sent.len(),
{
    let received = delivery(sent);
    if sent.len() == 0 {
        assert(printed(received.drop_first()) == Seq::<i32>::empty());
        assert(printed(received) =~= sent);
    } else {
        assert(received.drop_first() =~= delivery(sent.drop_first()));
        lemma_consumer_prints_what_was_sent(sent.drop_first());
        assert(printed(received) =~= sent);
    }
}

/// The values of a run are the ten integers 0, 1, ..., 9, in rising order and
/// so each of them once.
pub proof fn lemma_values_are_zero_to_nine()
    ensures
        values() == seq![0i32, 1, 2, 3, 4, 5, 6, 7, 8, 9],
        forall|i: int, j: int| 0 <= i < j < values().len() ==> values()[i] < values()[j],
{
    assert(values() =~= seq![0i32, 1, 2, 3, 4, 5, 6, 7, 8, 9]);
}

/// A whole run, in which the producer sends all its values and drops the
/// sending end, and the channel hands them over in order, makes the consumer
/// print the integers 0 through 9 in that order and nothing else.
pub proof fn lemma_run_prints_zero_to_nine()
    ensures
        printed(delivery(values())) == seq![0i32, 1, 2, 3, 4, 5, 6, 7, 8, 9],
{
    lemma_values_are_zero_to_nine();
    lemma_consumer_prints_what_was_sent(values());
}

} // verus!
