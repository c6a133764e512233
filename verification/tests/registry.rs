use futures::task::AtomicWaker;
use isolate_setup::registry::queue_task;
use isolate_setup::registry::register_isolate;
use isolate_setup::registry::spawn_delayed_task;
use isolate_setup::registry::unregister_isolate;
use isolate_setup::registry::Delivery;
use isolate_setup::registry::ForegroundTaskQueue;
use isolate_setup::registry::IsolateRegistry;
use std::sync::atomic::AtomicUsize;
use std::sync::atomic::Ordering;
use std::sync::Arc;
use std::sync::Mutex;
use std::task::Wake;
use std::task::Waker;
use std::time::Duration;

struct CountingWake {
    count: AtomicUsize,
}

impl Wake for CountingWake {
    fn wake(self: Arc<Self>) {
        self.count.fetch_add(1, Ordering::SeqCst);
    }
}

/// The event loop's side of a registration.
struct EventLoop {
    waker: Arc<AtomicWaker>,
    tasks: ForegroundTaskQueue<u32>,
    wakes: Arc<CountingWake>,
}

impl EventLoop {
    fn new() -> EventLoop {
        let event_loop = EventLoop {
            waker: Arc::new(AtomicWaker::new()),
            tasks: Arc::new(Mutex::new(Vec::new())),
            wakes: Arc::new(CountingWake { count: AtomicUsize::new(0) }),
        };
        event_loop.listen();
        event_loop
    }

    fn listen(&self) {
        self.waker.register(&Waker::from(self.wakes.clone()));
    }

    fn register(
        &self,
        registry: &mut IsolateRegistry<u32>,
        key: usize,
        runtime: &tokio::runtime::Runtime,
    ) {
        register_isolate(
            registry,
            key,
            self.waker.clone(),
            runtime.handle().clone(),
            self.tasks.clone(),
        );
    }

    fn queued(&self) -> Vec<u32> {
        self.tasks.lock().unwrap().clone()
    }

    fn wakes(&self) -> usize {
        self.wakes.count.load(Ordering::SeqCst)
    }
}

fn runtime() -> tokio::runtime::Runtime {
    tokio::runtime::Builder::new_current_thread().enable_time().build().unwrap()
}

fn complete(delivery: Delivery<u32>) {
    let tasks = delivery.tasks.clone();
    let pending = delivery.push(&mut tasks.lock().unwrap());
    pending.wake();
}

#[test]
fn empty_registry_drops_tasks() {
    let registry: IsolateRegistry<u32> = IsolateRegistry::new();
    assert!(queue_task(&registry, 0x1000, 7).is_none());
    assert!(spawn_delayed_task(&registry, 0x1000, 7).is_none());
}

#[test]
fn task_is_queued_and_event_loop_woken() {
    let runtime = runtime();
    let event_loop = EventLoop::new();
    let mut registry = IsolateRegistry::new();
    event_loop.register(&mut registry, 0x1000, &runtime);
    let delivery = queue_task(&registry, 0x1000, 7).unwrap();
    assert_eq!(delivery.task, 7);
    assert_eq!(event_loop.wakes(), 0);
    complete(delivery);
    assert_eq!(event_loop.queued(), vec![7]);
    assert_eq!(event_loop.wakes(), 1);
}

#[test]
fn waking_without_a_listener_does_nothing() {
    let runtime = runtime();
    let event_loop = EventLoop::new();
    let mut registry = IsolateRegistry::new();
    event_loop.register(&mut registry, 1, &runtime);
    complete(queue_task(&registry, 1, 1).unwrap());
    complete(queue_task(&registry, 1, 2).unwrap());
    assert_eq!(event_loop.wakes(), 1);
    event_loop.listen();
    complete(queue_task(&registry, 1, 3).unwrap());
    assert_eq!(event_loop.wakes(), 2);
    assert_eq!(event_loop.queued(), vec![1, 2, 3]);
}

#[test]
fn tasks_stay_in_order_behind_earlier_ones() {
    let runtime = runtime();
    let event_loop = EventLoop::new();
    event_loop.tasks.lock().unwrap().push(40);
    let mut registry = IsolateRegistry::new();
    event_loop.register(&mut registry, 1, &runtime);
    for task in [3, 1, 2] {
        complete(queue_task(&registry, 1, task).unwrap());
    }
    assert_eq!(event_loop.queued(), vec![40, 3, 1, 2]);
}

#[test]
fn isolates_do_not_mix() {
    let runtime = runtime();
    let first = EventLoop::new();
    let second = EventLoop::new();
    let mut registry = IsolateRegistry::new();
    first.register(&mut registry, 1, &runtime);
    second.register(&mut registry, 2, &runtime);
    complete(queue_task(&registry, 2, 9).unwrap());
    assert_eq!(first.queued(), Vec::<u32>::new());
    assert_eq!(first.wakes(), 0);
    assert_eq!(second.queued(), vec![9]);
    assert_eq!(second.wakes(), 1);
}

#[test]
fn unregistered_isolate_gets_no_tasks() {
    let runtime = runtime();
    let first = EventLoop::new();
    let second = EventLoop::new();
    let mut registry = IsolateRegistry::new();
    first.register(&mut registry, 1, &runtime);
    second.register(&mut registry, 2, &runtime);
    unregister_isolate(&mut registry, 1);
    unregister_isolate(&mut registry, 1);
    unregister_isolate(&mut registry, 77);
    assert!(queue_task(&registry, 1, 5).is_none());
    assert!(spawn_delayed_task(&registry, 1, 5).is_none());
    assert!(queue_task(&registry, 2, 5).is_some());
}

#[test]
fn latest_registration_counts() {
    let runtime = runtime();
    let first = EventLoop::new();
    let second = EventLoop::new();
    let mut registry = IsolateRegistry::new();
    first.register(&mut registry, 1, &runtime);
    second.register(&mut registry, 1, &runtime);
    complete(queue_task(&registry, 1, 5).unwrap());
    assert_eq!(first.queued(), Vec::<u32>::new());
    assert_eq!(second.queued(), vec![5]);
    unregister_isolate(&mut registry, 1);
    first.register(&mut registry, 1, &runtime);
    complete(queue_task(&registry, 1, 6).unwrap());
    assert_eq!(first.queued(), vec![6]);
    assert_eq!(second.queued(), vec![5]);
}

#[test]
fn delivery_outlives_the_registration() {
    let runtime = runtime();
    let first = EventLoop::new();
    let second = EventLoop::new();
    let mut registry = IsolateRegistry::new();
    first.register(&mut registry, 1, &runtime);
    let delivery = spawn_delayed_task(&registry, 1, 8).unwrap().1;
    unregister_isolate(&mut registry, 1);
    second.register(&mut registry, 1, &runtime);
    complete(delivery);
    assert_eq!(first.queued(), vec![8]);
    assert_eq!(first.wakes(), 1);
    assert_eq!(second.queued(), Vec::<u32>::new());
    assert_eq!(second.wakes(), 0);
}

#[test]
fn delayed_task_is_queued_after_the_delay() {
    let runtime = runtime();
    let event_loop = EventLoop::new();
    let mut registry = IsolateRegistry::new();
    event_loop.register(&mut registry, 1, &runtime);
    let waiting = {
        let (handle, delivery) = spawn_delayed_task(&registry, 1, 8).unwrap();
        handle.spawn(async move {
            tokio::time::sleep(Duration::from_millis(5)).await;
            complete(delivery);
        })
    };
    assert_eq!(event_loop.queued(), Vec::<u32>::new());
    runtime.block_on(waiting).unwrap();
    assert_eq!(event_loop.queued(), vec![8]);
    assert_eq!(event_loop.wakes(), 1);
}
