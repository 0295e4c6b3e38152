use minirt::Post;
use std::time::Instant;

#[test]
fn mutex_test_bench() {
    let mut m = minirt::mutex::Mutex::new(0u64);
    let start = Instant::now();
    for _ in 0..5000000u64 {
        let mut g = m.lock();
        let v = *g.get();
        g.set(v + 1);
        m.unlock(g);
    }
    let g = m.lock();
    assert_eq!(*g.get(), 5000000);
    m.unlock(g);
    let duration = start.elapsed();
    println!("time used {:?}", duration);
}

#[test]
fn mutex1_test_bench() {
    let mut m = minirt::mutex1::Mutex::new(0u64);
    let start = Instant::now();
    for _ in 0..5000000u64 {
        let mut g = m.lock();
        let v = *g.get();
        g.set(v + 1);
        m.unlock(g);
    }
    let g = m.lock();
    assert_eq!(*g.get(), 5000000);
    m.unlock(g);
    let duration = start.elapsed();
    println!("time used {:?}", duration);
}

#[test]
fn mutex2_test_bench() {
    let mut m = minirt::mutex2::Mutex::new(0u64);
    let start = Instant::now();
    for _ in 0..5000000u64 {
        let mut g = m.lock();
        let v = *g.get();
        g.set(v + 1);
        m.unlock(g);
    }
    let g = m.lock();
    assert_eq!(*g.get(), 5000000);
    m.unlock(g);
    let duration = start.elapsed();
    println!("time used {:?}", duration);
}

#[test]
fn spin_lock_round_trip() {
    let mut s = minirt::spin_lock::SpinLock::new(String::from("hello"));
    let mut g = s.lock();
    assert_eq!(g.get(), "hello");
    g.set(String::from("world"));
    s.unlock(g);
    let g = s.lock();
    assert_eq!(g.get(), "world");
    s.unlock(g);
}

#[test]
fn one_shot_send_then_receive() {
    let mut c = minirt::one_shot::OneShot::new();
    assert!(!c.is_ready());
    c.send(123u32);
    assert!(c.is_ready());
    assert_eq!(c.receive(), 123);
    assert!(!c.is_ready());
}

#[test]
fn one_shot1_split_send_receive() {
    let mut c = minirt::one_shot1::OneShot::new();
    let (tx, rx) = c.split();
    assert!(!rx.is_ready(&c));
    tx.send(&mut c, String::from("hello"));
    assert!(rx.is_ready(&c));
    assert_eq!(rx.receive(&mut c), "hello");
    let (tx2, rx2) = c.split();
    tx2.send(&mut c, String::from("again"));
    assert_eq!(rx2.receive(&mut c), "again");
}

#[test]
fn rwlock_readers_then_writer() {
    let mut l = minirt::rwlock::Rwlock::new(7u64);
    let g1 = l.read();
    let g2 = l.read();
    assert_eq!(*l.read_ref(), 7);
    l.drop_read(g1);
    l.drop_read(g2);
    let w = l.write();
    assert_eq!(*l.write_ref(), 7);
    l.write_set(8);
    assert_eq!(*l.write_ref(), 8);
    l.drop_write(w);
    let g = l.read();
    assert_eq!(*l.read_ref(), 8);
    l.drop_read(g);
}

#[test]
fn rwlock1_wakes_writer_after_last_reader() {
    let mut l = minirt::rwlock1::Rwlock::new(0u32);
    let g1 = l.read();
    let g2 = l.read();
    l.drop_read(g1);
    l.drop_read(g2);
    let w = l.write();
    l.write_set(5);
    l.drop_write(w);
    let g = l.read();
    assert_eq!(*l.read_ref(), 5);
    l.drop_read(g);
}

#[test]
fn rwlock2_write_priority_word() {
    let mut l = minirt::rwlock2::Rwlock::new(1u8);
    let g1 = l.read();
    let g2 = l.read();
    assert_eq!(*l.read_ref(), 1);
    l.drop_read(g2);
    l.drop_read(g1);
    let w = l.write();
    l.write_set(2);
    l.drop_write(w);
    let g = l.read();
    assert_eq!(*l.read_ref(), 2);
    l.drop_read(g);
}

#[test]
fn codvar_spares_the_wake_without_waiters() {
    let mut c = minirt::codver::Codvar::new();
    assert_eq!(c.counter_value(), 0);
    c.notify_one();
    c.notify_all();
    assert_eq!(c.counter_value(), 0, "no waiter, so no notification is recorded");
    assert_eq!(c.waiting_now(), 0);
}

#[test]
fn post_workflow() {
    let mut post = Post::new();
    post.add_text("I ate a salad for lunch today");
    assert_eq!("", post.content());
    post.request_review();
    assert_eq!("", post.content());
    post.approve();
    assert_eq!("I ate a salad for lunch today", post.content());
}

#[test]
fn post_approve_without_review_stays_draft() {
    let mut post = Post::new();
    post.add_text("draft text");
    post.approve();
    assert_eq!("", post.content());
    post.request_review();
    post.add_text(" and more");
    post.approve();
    assert_eq!("draft text and more", post.content());
}
