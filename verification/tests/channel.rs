use async_demos::channel::{consume, ConsumerStep, Producer, ProducerStep, BOUND, CAPACITY};

#[test]
fn channel_constants() {
    assert_eq!(CAPACITY, 10);
    assert_eq!(BOUND, 10);
}

#[test]
fn producer_starts_with_zero() {
    let mut producer = Producer::new();
    assert_eq!(producer.step(), ProducerStep::Send(0));
    assert_eq!(producer.step(), ProducerStep::Send(1));
}

#[test]
fn producer_sends_zero_to_nine_then_closes() {
    let mut producer = Producer::new();
    let mut sent: Vec<i32> = Vec::new();
    loop {
        match producer.step() {
            ProducerStep::Send(value) => sent.push(value),
            ProducerStep::Close => break,
        }
    }
    assert_eq!(sent, vec![0, 1, 2, 3, 4, 5, 6, 7, 8, 9]);
}

#[test]
fn producer_stays_closed() {
    let mut producer = Producer::new();
    let mut sends: usize = 0;
    while let ProducerStep::Send(_) = producer.step() {
        sends += 1;
    }
    assert_eq!(sends, 10);
    assert_eq!(producer.step(), ProducerStep::Close);
    assert_eq!(producer.step(), ProducerStep::Close);
}

#[test]
fn every_run_sends_the_same() {
    let mut runs: Vec<Vec<i32>> = Vec::new();
    for _ in 0..5 {
        let mut producer = Producer::new();
        let mut sent: Vec<i32> = Vec::new();
        while let ProducerStep::Send(value) = producer.step() {
            sent.push(value);
        }
        runs.push(sent);
    }
    for run in &runs {
        assert_eq!(run, &vec![0, 1, 2, 3, 4, 5, 6, 7, 8, 9]);
    }
}

#[test]
fn consumer_prints_a_value() {
    assert_eq!(consume(Some(0)), ConsumerStep::Print(0));
    assert_eq!(consume(Some(9)), ConsumerStep::Print(9));
    assert_eq!(consume(Some(-4)), ConsumerStep::Print(-4));
}

#[test]
fn consumer_stops_when_the_channel_is_closed() {
    assert_eq!(consume(None), ConsumerStep::Stop);
}

#[test]
fn run_over_an_ordered_queue_prints_zero_to_nine() {
    let mut producer = Producer::new();
    let mut queue: std::collections::VecDeque<i32> = std::collections::VecDeque::new();
    while let ProducerStep::Send(value) = producer.step() {
        assert!(queue.len() < CAPACITY);
        queue.push_back(value);
    }
    let mut printed: Vec<i32> = Vec::new();
    loop {
        match consume(queue.pop_front()) {
            ConsumerStep::Print(value) => printed.push(value),
            ConsumerStep::Stop => break,
        }
    }
    assert_eq!(printed, vec![0, 1, 2, 3, 4, 5, 6, 7, 8, 9]);
}
