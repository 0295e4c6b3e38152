use minirt::excutor::new_excutor_and_spwner;
use minirt::excutor2::{delay, Delay, MiniTokio};
use minirt::task::{Computation, Leaf, Reporter, Token, Yielder};
use std::sync::mpsc::channel;
use std::time::{Duration, Instant, SystemTime, UNIX_EPOCH};

fn wall_ms() -> u64 {
    SystemTime::now()
        .duration_since(UNIX_EPOCH)
        .unwrap()
        .as_millis() as u64
}

#[test]
fn basic_delay() {
    let (excutor, spawner) = new_excutor_and_spwner();
    let (results_tx, results_rx) = channel::<(u64, String)>();
    let start = Instant::now();
    let timer = Leaf::Timer(Delay::new(wall_ms() + 51));
    spawner
        .spawn(Computation::Report(Reporter::new(0, results_tx, timer)))
        .unwrap();
    drop(spawner);
    excutor.run();
    let elapsed = start.elapsed();
    assert!(elapsed >= Duration::from_millis(50), "returned too early: {:?}", elapsed);
    assert!(elapsed < Duration::from_millis(150), "returned too late: {:?}", elapsed);
    let (tag, result) = results_rx.recv().unwrap();
    assert_eq!(tag, 0);
    assert_eq!(result, "done");
}

#[test]
fn concurrent_spawns() {
    let (excutor, spawner) = new_excutor_and_spwner();
    let (results_tx, results_rx) = channel::<(u64, String)>();
    let pool = threadpool::ThreadPool::new(4);
    for worker in 0..4u64 {
        let sp = spawner.clone();
        let tx = results_tx.clone();
        pool.execute(move || {
            let base = wall_ms();
            let mut noise: u64 = worker.wrapping_mul(0x9e3779b97f4a7c15).wrapping_add(12345);
            for i in 0..25u64 {
                noise = noise
                    .wrapping_mul(6364136223846793005)
                    .wrapping_add(1442695040888963407);
                let millis = 1 + (noise >> 33) % 20;
                let tag = worker * 25 + i;
                let timer = Leaf::Timer(Delay::new(base + millis));
                sp.spawn(Computation::Report(Reporter::new(tag, tx.clone(), timer)))
                    .unwrap();
            }
        });
    }
    pool.join();
    drop(spawner);
    drop(results_tx);
    excutor.run();
    let mut seen = [0u32; 100];
    let mut total = 0u32;
    while let Ok((tag, result)) = results_rx.recv() {
        assert_eq!(result, "done");
        seen[tag as usize] += 1;
        total += 1;
    }
    assert_eq!(total, 100, "every spawned delay completes");
    for (tag, count) in seen.iter().enumerate() {
        assert_eq!(*count, 1, "task {} completed exactly once", tag);
    }
}

#[test]
fn wake_before_park() {
    // The computation invokes its own token and only then reports pending,
    // so the wake always lands before the runner has parked the task back in
    // its slot.  If such a wake could be lost, the runner would never resume
    // the task again and `run` would never return.
    let (excutor, spawner) = new_excutor_and_spwner();
    let (results_tx, results_rx) = channel::<(u64, String)>();
    let yielder = Leaf::Yield(Yielder::new(3));
    spawner
        .spawn(Computation::Report(Reporter::new(9, results_tx, yielder)))
        .unwrap();
    drop(spawner);
    excutor.run();
    let (tag, result) = results_rx.recv().unwrap();
    assert_eq!(tag, 9);
    assert_eq!(result, "done");
    assert!(results_rx.recv().is_err(), "completion is reported exactly once");
}

#[test]
fn overwrite_avoidance() {
    // Two equivalent tokens (same owning task) across two resumptions with
    // no intervening wake: the stored token is not replaced and exactly one
    // background waiting thread exists.
    let (queue_tx, _queue_rx) = channel::<usize>();
    let first = Token::new(5, queue_tx.clone());
    let second = Token::new(5, queue_tx);
    assert!(first.will_wake(&second));
    let far_deadline = wall_ms() + 60_000;
    let mut delay_leaf = Delay::new(far_deadline);
    assert_eq!(delay_leaf.timer_thread_count(), 0);
    assert!(matches!(delay_leaf.poll_at(wall_ms(), &first), minirt::task::Step::Pending));
    assert_eq!(delay_leaf.timer_thread_count(), 1);
    assert!(matches!(delay_leaf.poll_at(wall_ms(), &second), minirt::task::Step::Pending));
    assert_eq!(delay_leaf.timer_thread_count(), 1);
}

#[test]
fn spurious_wake_after_completion() {
    // A token invoked after its task has completed: the wake is served
    // against a retired slot and nothing observable happens.
    let (excutor, spawner) = new_excutor_and_spwner();
    let (results_tx, results_rx) = channel::<(u64, String)>();
    let timer = Leaf::Timer(Delay::new(wall_ms() + 5));
    spawner
        .spawn(Computation::Report(Reporter::new(1, results_tx, timer)))
        .unwrap();
    let late = spawner.waker_for(0);
    drop(spawner);
    let before = Instant::now();
    late.invoke();
    late.invoke();
    drop(late);
    excutor.run();
    assert!(before.elapsed() < Duration::from_millis(5000));
    let (tag, result) = results_rx.recv().unwrap();
    assert_eq!((tag, result.as_str()), (1, "done"));
    assert!(results_rx.recv().is_err(), "no duplicate completion from spurious wakes");
}

#[test]
fn expired_delay_completes_at_once() {
    // A delay polled past its deadline reports done on the spot and never
    // starts a waiting thread.
    let (queue_tx, _queue_rx) = channel::<usize>();
    let tok = Token::new(0, queue_tx);
    let now = wall_ms();
    let mut d = Delay::new(now);
    match d.poll_at(now, &tok) {
        minirt::task::Step::Done(s) => assert_eq!(s, "done"),
        minirt::task::Step::Pending => panic!("an expired delay must complete"),
    }
    assert_eq!(d.timer_thread_count(), 0);
}

#[test]
fn tokens_for_different_tasks_are_not_equivalent() {
    let (queue_tx, _queue_rx) = channel::<usize>();
    let a = Token::new(1, queue_tx.clone());
    let b = Token::new(2, queue_tx);
    assert!(!a.will_wake(&b));
    assert!(a.will_wake(&a));
}

#[test]
fn run_with_nothing_spawned_returns() {
    let (excutor, spawner) = new_excutor_and_spwner();
    drop(spawner);
    let start = Instant::now();
    excutor.run();
    assert!(start.elapsed() < Duration::from_millis(1000));
}

#[test]
fn spawn_after_runner_gone() {
    let (excutor, spawner) = new_excutor_and_spwner();
    drop(excutor);
    let (results_tx, _results_rx) = channel::<(u64, String)>();
    let timer = Leaf::Timer(Delay::new(wall_ms() + 5));
    let r = spawner.spawn(Computation::Report(Reporter::new(0, results_tx, timer)));
    assert_eq!(r, Err(minirt::excutor::QueueClosed));
}

#[allow(non_snake_case)]
#[test]
fn Excutor2_test() {
    let mini_tokio = MiniTokio::new();
    let (results_tx, results_rx) = channel::<(u64, String)>();
    let when = wall_ms() + 10;
    let timer = Leaf::Timer(Delay::new(when));
    mini_tokio
        .spawn(Computation::Report(Reporter::new(0, results_tx, timer)))
        .unwrap();
    mini_tokio.run();
    let (_, out) = results_rx.recv().unwrap();
    assert_eq!(out, "done");
    println!("done...");
}

#[test]
fn test1() {
    let mini_tokio = MiniTokio::new();
    let (results_tx, results_rx) = channel::<(u64, String)>();
    mini_tokio
        .spawn(Computation::Report(Reporter::new(0, results_tx, delay(1000))))
        .unwrap();
    mini_tokio.run();
    assert!(results_rx.recv().is_ok());
    println!("done 1...");
}
