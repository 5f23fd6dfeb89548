use figure_debugger::message::Message;
use figure_debugger::slot::LatestSlot;
use figure_debugger::worker::{Worker, WorkerAction};

#[test]
fn fresh_worker_has_taken_no_step() {
    let worker = Worker::new();
    assert_eq!(worker.steps(), 0);
    assert!(worker.is_running());
}

#[test]
fn each_next_is_one_step() {
    let mut worker = Worker::new();
    assert_eq!(worker.receive(Some(Message::Next)), WorkerAction::Advance(1));
    assert_eq!(worker.receive(Some(Message::Next)), WorkerAction::Advance(2));
    assert_eq!(worker.receive(Some(Message::Next)), WorkerAction::Advance(3));
    assert_eq!(worker.steps(), 3);
    assert!(worker.is_running());
}

#[test]
fn quit_ends_the_loop() {
    let mut worker = Worker::new();
    assert_eq!(worker.receive(Some(Message::Quit)), WorkerAction::Exit);
    assert!(!worker.is_running());
    assert_eq!(worker.steps(), 0);
}

#[test]
fn nothing_is_processed_after_quit() {
    let mut worker = Worker::new();
    assert_eq!(worker.receive(Some(Message::Next)), WorkerAction::Advance(1));
    assert_eq!(worker.receive(Some(Message::Quit)), WorkerAction::Exit);
    assert_eq!(worker.receive(Some(Message::Next)), WorkerAction::Exit);
    assert_eq!(worker.receive(Some(Message::Quit)), WorkerAction::Exit);
    assert_eq!(worker.receive(None), WorkerAction::Exit);
    assert_eq!(worker.steps(), 1);
    assert!(!worker.is_running());
}

#[test]
fn disconnection_is_fatal() {
    let mut worker = Worker::new();
    assert_eq!(worker.receive(Some(Message::Next)), WorkerAction::Advance(1));
    assert_eq!(worker.receive(None), WorkerAction::Abort);
    assert!(!worker.is_running());
    assert_eq!(worker.steps(), 1);
}

#[test]
fn replay_counts_one_step_per_next() {
    let mut worker = Worker::new();
    let queue = vec![Message::Next; 25];
    assert_eq!(worker.replay(&queue), 25);
    assert_eq!(worker.steps(), 25);
    assert!(worker.is_running());
    assert_eq!(worker.replay(&queue), 25);
    assert_eq!(worker.steps(), 50);
}

#[test]
fn replay_stops_at_quit() {
    let mut worker = Worker::new();
    let queue = vec![
        Message::Next,
        Message::Next,
        Message::Quit,
        Message::Next,
        Message::Next,
        Message::Next,
    ];
    assert_eq!(worker.replay(&queue), 2);
    assert_eq!(worker.steps(), 2);
    assert!(!worker.is_running());
    assert_eq!(worker.replay(&vec![Message::Next]), 0);
    assert_eq!(worker.steps(), 2);
}

#[test]
fn replay_of_nothing_changes_nothing() {
    let mut worker = Worker::new();
    assert_eq!(worker.replay(&Vec::new()), 0);
    assert_eq!(worker.steps(), 0);
    assert!(worker.is_running());
}

#[test]
fn idle_worker_leaves_the_slot_alone() {
    let mut worker = Worker::new();
    let slot = LatestSlot::new(String::from("empty"));
    assert_eq!(worker.replay(&Vec::new()), 0);
    for _ in 0..1000 {
        assert_eq!(slot.figure(), "empty");
        assert_eq!(slot.generation(), 0);
    }
}

#[test]
fn slot_starts_with_the_initial_figure() {
    let slot = LatestSlot::new(vec![1u8, 2, 3]);
    assert_eq!(slot.figure(), &vec![1u8, 2, 3]);
    assert_eq!(slot.generation(), 0);
}

#[test]
fn publishing_replaces_the_figure() {
    let mut slot = LatestSlot::new(String::from("empty"));
    slot.publish(String::from("first"), 1);
    assert_eq!(slot.figure(), "first");
    assert_eq!(slot.generation(), 1);
    slot.publish(String::from("second"), 2);
    assert_eq!(slot.figure(), "second");
    assert_eq!(slot.generation(), 2);
}

#[test]
fn slot_holds_the_figure_of_as_many_steps_as_next_were_sent() {
    let mut worker = Worker::new();
    let mut optimizer: u32 = 0;
    let mut slot = LatestSlot::new(0u32);
    for _ in 0..7 {
        match worker.receive(Some(Message::Next)) {
            WorkerAction::Advance(generation) => {
                optimizer += 10;
                slot.publish(optimizer, generation);
            }
            other => panic!("unexpected action {:?}", other),
        }
    }
    assert_eq!(*slot.figure(), 70);
    assert_eq!(slot.generation(), 7);
    assert_eq!(worker.steps(), 7);
}
