use job_dispatcher::job_handler::{run, GreeterJob, JobInterface, JobQueue, SumJob, IDLE_ROUNDS};

#[test]
fn handler_jobs_report_their_lines() {
    assert_eq!(GreeterJob::new("Jill".to_string()).run(), "Hello, Jill!");
    assert_eq!(SumJob::new(5, 6).run(), "5 + 6 = 11");
}

#[test]
fn job_queue_hands_out_oldest_first() {
    let mut queue: JobQueue<Box<dyn JobInterface>> = JobQueue::new();
    assert!(queue.dequeue_and_run().is_none());
    queue.enqueue(Box::new(GreeterJob::new("John".to_string())));
    queue.enqueue(Box::new(SumJob::new(1, 2)));
    assert_eq!(queue.len(), 2);
    assert_eq!(queue.dequeue_and_run().unwrap().run(), "Hello, John!");
    assert_eq!(queue.dequeue_and_run().unwrap().run(), "1 + 2 = 3");
    assert!(queue.dequeue_and_run().is_none());
    assert_eq!(queue.len(), 0);
}

#[test]
fn handler_round_counts_idle_rounds() {
    let mut queue: JobQueue<u32> = JobQueue::new();
    let round = run(&mut queue, 0);
    assert_eq!(round.launch, None);
    assert_eq!(round.idle, 1);
    assert!(!round.exit);

    queue.enqueue(42);
    let round = run(&mut queue, 1);
    assert_eq!(round.launch, Some(42));
    assert_eq!(round.idle, 1);
    assert!(!round.exit);
    assert_eq!(queue.len(), 0);
}

#[test]
fn handler_gives_up_after_idle_limit() {
    let mut queue: JobQueue<u32> = JobQueue::new();
    let mut idle = 0;
    let mut rounds = 0;
    loop {
        let round = run(&mut queue, idle);
        idle = round.idle;
        rounds += 1;
        if round.exit {
            break;
        }
    }
    assert_eq!(rounds, 10);
    assert_eq!(idle, IDLE_ROUNDS);
}
