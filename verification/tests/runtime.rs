//! Whole simulations: real futures, run by the executor in simulated time.

use async_task::Runnable;
use msim::executor::{AfterRun, BlockOnAction, BlockOnEvent, Executor, RunOutcome};
use msim::id::NodeId;
use msim::join::{AbortHandle, JoinError, JoinHandle, JoinTable, Poll as JoinPoll};
use msim::model::{ReadyStep, TaskRef};
use msim::rng::GlobalRng;
use msim::tasks::{output_of, SpawnTicket, TaskNodeHandle, WaitEvent};
use std::any::Any;
use std::cell::{Cell, RefCell};
use std::collections::HashSet;
use std::future::Future;
use std::marker::PhantomData;
use std::pin::Pin;
use std::rc::Rc;
use std::sync::atomic::{AtomicBool, AtomicUsize, Ordering};
use std::sync::{Arc, Mutex};
use std::task::{Context, Poll, Waker};
use std::time::Duration;

type Init = Rc<dyn Fn(&Sim, &TaskNodeHandle)>;
type Output = Box<dyn Any>;
type Inbox = Arc<Mutex<Vec<(Runnable, TaskRef)>>>;

struct Timer {
    deadline: Duration,
    node: NodeId,
    fired: Rc<Cell<bool>>,
    waker: Waker,
}

struct Inner {
    executor: RefCell<Executor<Runnable, Init>>,
    inbox: Inbox,
    joins: RefCell<JoinTable<Output>>,
    now: Cell<Duration>,
    timers: RefCell<Vec<Timer>>,
    disabled: RefCell<HashSet<u64>>,
    current: RefCell<Vec<TaskRef>>,
}

#[derive(Clone)]
struct Sim(Rc<Inner>);

fn library_duration(d: Duration) -> msim::time::Duration {
    msim::time::Duration { nanos: d.as_nanos() }
}

impl Sim {
    fn new() -> Sim {
        Sim::with_seed(0)
    }

    fn with_seed(seed: u64) -> Sim {
        Sim(Rc::new(Inner {
            executor: RefCell::new(Executor::new(GlobalRng::new_with_seed(seed))),
            inbox: Arc::new(Mutex::new(Vec::new())),
            joins: RefCell::new(JoinTable::new()),
            now: Cell::new(Duration::ZERO),
            timers: RefCell::new(Vec::new()),
            disabled: RefCell::new(HashSet::new()),
            current: RefCell::new(Vec::new()),
        }))
    }

    fn now(&self) -> Duration {
        self.0.now.get()
    }

    fn current_handle(&self) -> TaskNodeHandle {
        TaskNodeHandle::current(self.0.current.borrow().last().copied(), true)
    }

    fn node_of(&self, task: TaskRef) -> NodeId {
        self.0.executor.borrow().handle().info(task).node()
    }

    fn current_node(&self) -> NodeId {
        self.current_handle().id(self.0.executor.borrow().handle())
    }

    fn sleep_until(&self, deadline: Duration) -> Sleep {
        Sleep { sim: self.clone(), deadline, fired: Rc::new(Cell::new(false)), registered: false }
    }

    fn sleep(&self, duration: Duration) -> Sleep {
        self.sleep_until(self.now() + duration)
    }

    fn fire_timers(&self) {
        let mut due = Vec::new();
        self.0.timers.borrow_mut().retain(|timer| {
            if timer.deadline <= self.now() {
                timer.fired.set(true);
                due.push(timer.waker.clone());
                false
            } else {
                true
            }
        });
        for waker in due {
            waker.wake();
        }
    }

    fn advance_to_next_event(&self) -> bool {
        let next = self.0.timers.borrow().iter().map(|timer| timer.deadline).min();
        match next {
            Some(deadline) => {
                self.0.now.set(deadline.max(self.now()));
                self.fire_timers();
                true
            }
            None => false,
        }
    }

    fn schedule<F>(&self, future: F, task: TaskRef) -> async_task::Task<F::Output>
    where
        F: Future + 'static,
        F::Output: 'static,
    {
        let inbox = self.0.inbox.clone();
        let (runnable, join) = async_task::spawn_local(future, move |runnable| {
            inbox.lock().unwrap().push((runnable, task));
        });
        runnable.schedule();
        join
    }

    fn start<F>(&self, future: F, ticket: SpawnTicket) -> Joiner<F::Output>
    where
        F: Future + 'static,
        F::Output: 'static,
    {
        let mut killed = ticket.killed;
        let future = async move {
            let mut future = Box::pin(future);
            loop {
                let event = {
                    let changed = Box::pin(killed.changed());
                    match futures::future::select(changed, &mut future).await {
                        futures::future::Either::Left(_) => None,
                        futures::future::Either::Right((output, _)) => {
                            Some(WaitEvent::Output(output))
                        }
                    }
                };
                let event = event.unwrap_or_else(|| WaitEvent::KilledChanged(*killed.borrow()));
                if matches!(event, WaitEvent::KilledChanged(true)) {
                    panic!("killed task must not run!");
                }
                if let Some(output) = output_of(event) {
                    return Box::new(output) as Output;
                }
            }
        };
        let task = self.schedule(future, ticket.info).fallible();
        let handle = self.0.joins.borrow_mut().register(task);
        Joiner { sim: self.clone(), handle: Some(handle), output: PhantomData }
    }

    fn spawn_on<F>(&self, node: &TaskNodeHandle, future: F) -> Joiner<F::Output>
    where
        F: Future + 'static,
        F::Output: 'static,
    {
        let ticket = node.spawn(self.0.executor.borrow_mut().handle_mut());
        self.start(future, ticket)
    }

    fn spawn<F>(&self, future: F) -> Joiner<F::Output>
    where
        F: Future + 'static,
        F::Output: 'static,
    {
        self.spawn_on(&self.current_handle(), future)
    }

    fn spawn_local_on<F>(&self, node: &TaskNodeHandle, future: F) -> Joiner<F::Output>
    where
        F: Future + 'static,
        F::Output: 'static,
    {
        let ticket = node.spawn_local(self.0.executor.borrow().handle(), None);
        self.start(future, ticket)
    }

    fn spawn_local<F>(&self, future: F) -> Joiner<F::Output>
    where
        F: Future + 'static,
        F::Output: 'static,
    {
        self.spawn_local_on(&self.current_handle(), future)
    }

    fn create_node(&self) -> TaskNodeHandle {
        self.0.executor.borrow_mut().handle_mut().create_node(None)
    }

    fn create_node_with_init(&self, init: Init) -> TaskNodeHandle {
        let handle = self.0.executor.borrow_mut().handle_mut().allocate_node(None);
        init(self, &handle);
        let dropped =
            self.0.executor.borrow_mut().handle_mut().install_node(&handle, Some(init));
        drop(dropped);
        handle
    }

    fn id(&self, node: &TaskNodeHandle) -> NodeId {
        node.id(self.0.executor.borrow().handle())
    }

    fn disable_timers(&self, id: NodeId) {
        self.0.disabled.borrow_mut().insert(id.0);
        self.0.timers.borrow_mut().retain(|timer| timer.node != id);
    }

    fn kill(&self, id: NodeId) {
        let actions = self.0.executor.borrow_mut().handle_mut().kill(id);
        self.disable_timers(actions.disable_timers);
        drop(actions.dropped);
    }

    fn restart(&self, id: NodeId) {
        let actions = self.0.executor.borrow_mut().handle_mut().restart(id);
        self.disable_timers(actions.killed.disable_timers);
        drop(actions.killed.dropped);
        self.0.disabled.borrow_mut().remove(&actions.enable_timers.0);
        if let Some(handle) = actions.init {
            let init = self.0.executor.borrow().handle().init_of(id).unwrap().clone();
            init(self, &handle);
        }
    }

    fn pause(&self, id: NodeId) {
        self.0.executor.borrow_mut().handle_mut().pause(id);
    }

    fn resume(&self, id: NodeId) {
        self.0.executor.borrow_mut().handle_mut().resume(id);
    }

    fn receive(&self) {
        let received = std::mem::take(&mut *self.0.inbox.lock().unwrap());
        for (runnable, task) in received {
            self.0.executor.borrow_mut().handle_mut().send(runnable, task);
        }
    }

    fn run_all_ready(&self) {
        loop {
            self.receive();
            let step = self.0.executor.borrow_mut().run_all_ready();
            match step {
                ReadyStep::Idle => return,
                ReadyStep::Drop(runnable, task) => {
                    self.0.current.borrow_mut().push(task);
                    drop(runnable);
                    self.0.current.borrow_mut().pop();
                }
                ReadyStep::Run(runnable, task) => {
                    let node = self.node_of(task);
                    self.0.current.borrow_mut().push(task);
                    runnable.run();
                    self.0.current.borrow_mut().pop();
                    let after =
                        self.0.executor.borrow_mut().after_run(node, RunOutcome::Completed);
                    match after {
                        AfterRun::Continue { restart, advance } => {
                            assert!(restart.is_none());
                            let passed = Duration::from_nanos(advance.nanos as u64);
                            self.0.now.set(self.now() + passed);
                            self.fire_timers();
                        }
                        AfterRun::Rethrow { .. } => unreachable!(),
                    }
                }
            }
        }
    }

    fn block_on<F>(&self, future: F) -> F::Output
    where
        F: Future + 'static,
        F::Output: 'static,
    {
        let mut future = Some(future);
        let mut main: Option<async_task::Task<F::Output>> = None;
        let mut output = None;
        let waker = futures::task::noop_waker();
        let mut cx = Context::from_waker(&waker);
        let mut event = BlockOnEvent::Started;
        loop {
            self.receive();
            let action = self.0.executor.borrow_mut().block_on(event);
            event = match action {
                BlockOnAction::SpawnMain(task) => {
                    main = Some(self.schedule(future.take().unwrap(), task));
                    BlockOnEvent::MainSpawned
                }
                BlockOnAction::RunAllReady => {
                    self.run_all_ready();
                    BlockOnEvent::ReadyQueueEmpty
                }
                BlockOnAction::PollMain => {
                    if let Poll::Ready(value) = Pin::new(main.as_mut().unwrap()).poll(&mut cx) {
                        output = Some(value);
                    }
                    BlockOnEvent::MainPolled { ready: output.is_some() }
                }
                BlockOnAction::AdvanceToNextEvent => {
                    let going = self.advance_to_next_event();
                    BlockOnEvent::TimeAdvanced { going, elapsed: library_duration(self.now()) }
                }
                BlockOnAction::Return => return output.unwrap(),
                BlockOnAction::NoEvents => panic!("no events, the task will block forever"),
                BlockOnAction::TimeLimitExceeded(limit) => {
                    panic!("time limit exceeded: {:?}", limit)
                }
            };
        }
    }
}

struct Sleep {
    sim: Sim,
    deadline: Duration,
    fired: Rc<Cell<bool>>,
    registered: bool,
}

impl Future for Sleep {
    type Output = ();

    fn poll(mut self: Pin<&mut Self>, cx: &mut Context<'_>) -> Poll<()> {
        if self.fired.get() {
            return Poll::Ready(());
        }
        if !self.registered {
            self.registered = true;
            let node = self.sim.current_node();
            if !self.sim.0.disabled.borrow().contains(&node.0) {
                self.sim.0.timers.borrow_mut().push(Timer {
                    deadline: self.deadline,
                    node,
                    fired: self.fired.clone(),
                    waker: cx.waker().clone(),
                });
            }
        }
        Poll::Pending
    }
}

struct YieldNow(bool);

impl Future for YieldNow {
    type Output = ();

    fn poll(mut self: Pin<&mut Self>, cx: &mut Context<'_>) -> Poll<()> {
        if self.0 {
            Poll::Ready(())
        } else {
            self.0 = true;
            cx.waker().wake_by_ref();
            Poll::Pending
        }
    }
}

struct Joiner<T> {
    sim: Sim,
    handle: Option<JoinHandle>,
    output: PhantomData<T>,
}

impl<T> Joiner<T> {
    fn abort(&self) {
        self.handle.as_ref().unwrap().abort(&mut *self.sim.0.joins.borrow_mut());
    }

    fn abort_handle(&self) -> AbortHandle {
        self.handle.as_ref().unwrap().abort_handle(&mut *self.sim.0.joins.borrow_mut())
    }

    fn is_finished(&self) -> bool {
        self.handle.as_ref().unwrap().is_finished(&*self.sim.0.joins.borrow())
    }
}

impl<T: Unpin + 'static> Future for Joiner<T> {
    type Output = Result<T, JoinError>;

    fn poll(self: Pin<&mut Self>, cx: &mut Context<'_>) -> Poll<Self::Output> {
        let handle = self.handle.as_ref().unwrap();
        let polled = match handle.begin_poll(&mut *self.sim.0.joins.borrow_mut()) {
            Ok(task) => match Pin::new(task).poll(cx) {
                Poll::Ready(output) => JoinPoll::Ready(output),
                Poll::Pending => JoinPoll::Pending,
            },
            Err(error) => return Poll::Ready(Err(error)),
        };
        match handle.finish_poll(polled) {
            JoinPoll::Ready(result) => {
                Poll::Ready(result.map(|output| *output.downcast::<T>().unwrap()))
            }
            JoinPoll::Pending => Poll::Pending,
        }
    }
}

impl<T> Drop for Joiner<T> {
    fn drop(&mut self) {
        self.handle.take().unwrap().detach(&mut *self.sim.0.joins.borrow_mut());
    }
}

struct JoinSet<T: Unpin + 'static> {
    sim: Sim,
    tasks: Vec<Joiner<T>>,
}

impl<T: Unpin + 'static> JoinSet<T> {
    fn new(sim: &Sim) -> Self {
        JoinSet { sim: sim.clone(), tasks: Vec::new() }
    }

    fn spawn<F: Future<Output = T> + 'static>(&mut self, future: F) {
        let task = self.sim.spawn(future);
        self.tasks.push(task);
    }

    async fn join_next(&mut self) -> Option<Result<T, JoinError>> {
        if self.tasks.is_empty() {
            return None;
        }
        let tasks = std::mem::take(&mut self.tasks);
        let (next, _, rest) = futures::future::select_all(tasks).await;
        self.tasks = rest;
        Some(next)
    }

    fn abort_all(&mut self) {
        for task in self.tasks.iter() {
            task.abort();
        }
    }

    fn detach_all(&mut self) {
        self.tasks.clear();
    }
}

impl<T: Unpin + 'static> Drop for JoinSet<T> {
    fn drop(&mut self) {
        self.abort_all();
    }
}

struct Entering<F> {
    sim: Sim,
    task: TaskRef,
    inner: Pin<Box<F>>,
}

impl<F: Future> Future for Entering<F> {
    type Output = F::Output;

    fn poll(mut self: Pin<&mut Self>, cx: &mut Context<'_>) -> Poll<F::Output> {
        self.sim.0.current.borrow_mut().push(self.task);
        let polled = self.inner.as_mut().poll(cx);
        self.sim.0.current.borrow_mut().pop();
        polled
    }
}

#[test]
fn spawn_in_block_on() {
    let sim = Sim::new();
    let sim_ = sim.clone();
    sim.block_on(async move {
        assert_eq!(sim_.spawn(async { 1 }).await.unwrap(), 1);
        assert_eq!(sim_.spawn_local(async { 2 }).await.unwrap(), 2);
    });
}

#[test]
fn kill() {
    let sim = Sim::new();
    let node1 = sim.create_node();
    let node2 = sim.create_node();

    let flag1 = Arc::new(AtomicUsize::new(0));
    let flag2 = Arc::new(AtomicUsize::new(0));

    let (flag1_, sim_) = (flag1.clone(), sim.clone());
    sim.spawn_on(&node1, async move {
        loop {
            sim_.sleep(Duration::from_secs(2)).await;
            flag1_.fetch_add(2, Ordering::SeqCst);
        }
    });

    let (flag2_, sim_) = (flag2.clone(), sim.clone());
    sim.spawn_on(&node2, async move {
        loop {
            sim_.sleep(Duration::from_secs(2)).await;
            flag2_.fetch_add(2, Ordering::SeqCst);
        }
    });

    let sim_ = sim.clone();
    sim.block_on(async move {
        let t0 = sim_.now();

        sim_.sleep_until(t0 + Duration::from_secs(3)).await;
        assert_eq!(flag1.load(Ordering::SeqCst), 2);
        assert_eq!(flag2.load(Ordering::SeqCst), 2);
        sim_.kill(sim_.id(&node1));
        sim_.kill(sim_.id(&node1));

        sim_.sleep_until(t0 + Duration::from_secs(5)).await;
        assert_eq!(flag1.load(Ordering::SeqCst), 2);
        assert_eq!(flag2.load(Ordering::SeqCst), 4);
    });
}

#[test]
fn restart() {
    let sim = Sim::new();

    let flag = Arc::new(AtomicUsize::new(0));

    let flag_ = flag.clone();
    let node = sim.create_node_with_init(Rc::new(move |sim: &Sim, handle: &TaskNodeHandle| {
        let (flag, sim_) = (flag_.clone(), sim.clone());
        sim.spawn_local_on(handle, async move {
            // set flag to 0, then +2 every 2s
            flag.store(0, Ordering::SeqCst);
            loop {
                sim_.sleep(Duration::from_secs(2)).await;
                flag.fetch_add(2, Ordering::SeqCst);
            }
        });
    }));

    let sim_ = sim.clone();
    sim.block_on(async move {
        let t0 = sim_.now();

        sim_.sleep_until(t0 + Duration::from_secs(3)).await;
        assert_eq!(flag.load(Ordering::SeqCst), 2);
        sim_.kill(sim_.id(&node));
        sim_.restart(sim_.id(&node));

        sim_.sleep_until(t0 + Duration::from_secs(6)).await;
        assert_eq!(flag.load(Ordering::SeqCst), 2);

        sim_.sleep_until(t0 + Duration::from_secs(8)).await;
        assert_eq!(flag.load(Ordering::SeqCst), 4);
    });
}

#[test]
fn pause_resume() {
    let sim = Sim::new();
    let node = sim.create_node();

    let flag = Arc::new(AtomicUsize::new(0));
    let (flag_, sim_) = (flag.clone(), sim.clone());
    sim.spawn_on(&node, async move {
        loop {
            sim_.sleep(Duration::from_secs(2)).await;
            flag_.fetch_add(2, Ordering::SeqCst);
        }
    });

    let sim_ = sim.clone();
    sim.block_on(async move {
        let t0 = sim_.now();

        sim_.sleep_until(t0 + Duration::from_secs(3)).await;
        assert_eq!(flag.load(Ordering::SeqCst), 2);
        sim_.pause(sim_.id(&node));
        sim_.pause(sim_.id(&node));

        sim_.sleep_until(t0 + Duration::from_secs(5)).await;
        assert_eq!(flag.load(Ordering::SeqCst), 2);

        sim_.resume(sim_.id(&node));
        sim_.resume(sim_.id(&node));
        sim_.sleep_until(t0 + Duration::from_secs_f32(5.5)).await;
        assert_eq!(flag.load(Ordering::SeqCst), 4);
    });
}

fn order_of_ready_tasks(seed: u64) -> Vec<i32> {
    let sim = Sim::with_seed(seed);
    let sim_ = sim.clone();
    sim.block_on(async move {
        let (tx, rx) = std::sync::mpsc::channel();
        let mut tasks = vec![];
        for i in 0..3 {
            let tx = tx.clone();
            tasks.push(sim_.spawn(async move {
                for j in 0..5 {
                    tx.send(i * 10 + j).unwrap();
                    YieldNow(false).await;
                }
            }));
        }
        drop(tx);
        futures::future::join_all(tasks).await;
        rx.into_iter().collect::<Vec<_>>()
    })
}

#[test]
fn random_select_from_ready_tasks() {
    let mut seqs = HashSet::new();
    for seed in 0..10 {
        seqs.insert(order_of_ready_tasks(seed));
    }
    assert_eq!(seqs.len(), 10);
}

#[test]
fn same_seed_same_order() {
    for seed in 0..5 {
        assert_eq!(order_of_ready_tasks(seed), order_of_ready_tasks(seed));
    }
}

#[test]
fn await_future_in_node() {
    let sim = Sim::new();
    let node1 = sim.create_node();
    let node2 = sim.create_node();
    let node1_id = sim.id(&node1);
    let node2_id = sim.id(&node2);

    let sim_ = sim.clone();
    sim.block_on(async move {
        let inner = sim_.clone();
        sim_.spawn_on(&node1, async move {
            let sim__ = inner.clone();
            let id = Entering {
                sim: inner.clone(),
                task: node2.info,
                inner: Box::pin(async move {
                    YieldNow(false).await;
                    sim__.current_node()
                }),
            }
            .await;

            assert_eq!(id, node2_id);
            assert_eq!(inner.current_node(), node1_id);
        })
        .await
        .unwrap();
    });
}

#[test]
fn test_abort() {
    let sim = Sim::new();

    fn panic_int() -> i32 {
        panic!();
    }

    let sim_ = sim.clone();
    sim.block_on(async move {
        let inner = sim_.clone();
        let jh = sim_.spawn(async move {
            inner.sleep(Duration::from_secs(5)).await;
            panic_int()
        });
        sim_.sleep(Duration::from_secs(1)).await;
        assert!(!jh.is_finished());
        jh.abort();
        assert!(jh.is_finished());
        jh.await.unwrap_err();
    });

    let sim_ = sim.clone();
    sim.block_on(async move {
        let inner = sim_.clone();
        let jh = sim_.spawn(async move {
            inner.sleep(Duration::from_secs(5)).await;
            panic_int()
        });
        sim_.sleep(Duration::from_secs(1)).await;
        let ah = jh.abort_handle();
        assert!(!ah.is_finished(&*sim_.0.joins.borrow()));
        ah.abort(&mut *sim_.0.joins.borrow_mut());
        assert!(ah.is_finished(&*sim_.0.joins.borrow()));
        jh.await.unwrap_err();
    });
}

#[test]
fn test_joinset() {
    let sim = Sim::new();

    // test joining
    let sim_ = sim.clone();
    sim.block_on(async move {
        let mut join_set = JoinSet::new(&sim_);

        for secs in [3, 2, 1] {
            let inner = sim_.clone();
            join_set.spawn(async move {
                inner.sleep(Duration::from_secs(secs)).await;
                secs
            });
        }

        let mut res = Vec::new();
        while let Some(next) = join_set.join_next().await {
            res.push(next.unwrap());
        }
        assert_eq!(res, vec![1, 2, 3]);
    });

    // test cancelling
    let sim_ = sim.clone();
    sim.block_on(async move {
        let mut join_set: JoinSet<()> = JoinSet::new(&sim_);

        // test abort_all()
        let inner = sim_.clone();
        join_set.spawn(async move {
            inner.sleep(Duration::from_secs(3)).await;
            panic!();
        });
        sim_.sleep(Duration::from_secs(1)).await;
        join_set.abort_all();
        sim_.sleep(Duration::from_secs(5)).await;

        // test drop
        let inner = sim_.clone();
        join_set.spawn(async move {
            inner.sleep(Duration::from_secs(3)).await;
            panic!();
        });
        sim_.sleep(Duration::from_secs(1)).await;
        std::mem::drop(join_set);
        sim_.sleep(Duration::from_secs(5)).await;
    });

    // test detach
    let sim_ = sim.clone();
    sim.block_on(async move {
        let flag = Arc::new(AtomicBool::new(false));
        let mut join_set = JoinSet::new(&sim_);

        let (flag1, inner) = (flag.clone(), sim_.clone());
        join_set.spawn(async move {
            inner.sleep(Duration::from_secs(3)).await;
            flag1.store(true, Ordering::Relaxed);
        });
        sim_.sleep(Duration::from_secs(1)).await;
        join_set.detach_all();
        sim_.sleep(Duration::from_secs(5)).await;
        assert_eq!(flag.load(Ordering::Relaxed), true);
    });
}

#[test]
fn killed_task_is_dropped_and_its_handle_reports_cancellation() {
    let sim = Sim::new();
    let node = sim.create_node();
    let sim_ = sim.clone();
    sim.block_on(async move {
        let task = sim_.spawn_on(&node, futures::future::pending::<()>());
        sim_.sleep(Duration::from_secs(1)).await;
        assert!(!task.is_finished());
        sim_.kill(sim_.id(&node));
        let id = task.handle.as_ref().unwrap().id;
        assert_eq!(task.await, Err(JoinError { cancelled: id }));
    });
}

#[test]
fn task_is_aborted_when_its_join_handle_is_gone() {
    let sim = Sim::new();
    let sim_ = sim.clone();
    sim.block_on(async move {
        let flag = Arc::new(AtomicUsize::new(0));
        let (inner, flag_) = (sim_.clone(), flag.clone());
        let jh = sim_.spawn(async move {
            inner.sleep(Duration::from_secs(5)).await;
            flag_.store(1, Ordering::SeqCst);
        });
        let ah = jh.abort_handle();
        drop(jh);
        assert!(!ah.is_finished(&*sim_.0.joins.borrow()));
        ah.abort(&mut *sim_.0.joins.borrow_mut());
        assert!(ah.is_finished(&*sim_.0.joins.borrow()));
        sim_.sleep(Duration::from_secs(10)).await;
        assert_eq!(flag.load(Ordering::SeqCst), 0);
    });
}

#[test]
fn task_goes_on_when_its_join_handle_is_dropped() {
    let sim = Sim::new();
    let sim_ = sim.clone();
    sim.block_on(async move {
        let flag = Arc::new(AtomicUsize::new(0));
        let (inner, flag_) = (sim_.clone(), flag.clone());
        let jh = sim_.spawn(async move {
            inner.sleep(Duration::from_secs(3)).await;
            flag_.store(1, Ordering::SeqCst);
        });
        sim_.sleep(Duration::from_secs(1)).await;
        drop(jh);
        sim_.sleep(Duration::from_secs(5)).await;
        assert_eq!(flag.load(Ordering::SeqCst), 1);
    });
}
