//! The registry of isolates, and the way of a foreground task into the queue of
//! the isolate it was posted to.
//!
//! V8 posts tasks from any thread and names only the isolate. The registry
//! knows, for each isolate, the queue to put its tasks into, the waker of the
//! event loop that drains this queue, and the runtime on which delayed tasks
//! wait.

use crate::outside::wake_event_loop;
use crate::outside::EventLoopWoken;
use crate::outside::PendingWake;
use futures::task::AtomicWaker;
use std::collections::HashMap;
use std::sync::Arc;
use std::sync::Mutex;
use tokio::runtime::Handle;
use vstd::prelude::*;

verus! {

broadcast use vstd::std_specs::hash::group_hash_axioms;

/// Queue of foreground tasks, shared between the registry, which fills it from
/// any thread, and the event loop, which drains it. Cloning it gives another
/// handle on the same queue.
pub type ForegroundTaskQueue<T> = Arc<Mutex<Vec<T>>>;

/// What the registry keeps of an isolate: enough to hand it a task and to wake
/// its event loop.
#[verifier::reject_recursive_types(T)]
pub struct IsolateEntry<T> {
    pub waker: Arc<AtomicWaker>,
    pub handle: Handle,
    pub tasks: ForegroundTaskQueue<T>,
}

/// The isolates that tasks can be posted to, by the address of the isolate.
#[verifier::reject_recursive_types(T)]
pub struct IsolateRegistry<T> {
    entries: HashMap<usize, IsolateEntry<T>>,
}

impl<T> View for IsolateRegistry<T> {
    type V = Map<usize, IsolateEntry<T>>;

    closed spec fn view(&self) -> Map<usize, IsolateEntry<T>> {
        self.entries@
    }
}

impl<T> IsolateRegistry<T> {
    /// A registry without any isolate.
    pub fn new() -> (registry: Self)
        ensures
            registry@ == Map::<usize, IsolateEntry<T>>::empty(),
    {
        IsolateRegistry { entries: HashMap::new() }
    }
}

/// A task on its way: the queue that it goes into, and the waker of the event
/// loop to wake once it is there. Both are those of the isolate's registration
/// at the time when the task was posted, whatever becomes of that registration
/// afterwards.
#[verifier::reject_recursive_types(T)]
pub struct Delivery<T> {
    pub tasks: ForegroundTaskQueue<T>,
    pub waker: Arc<AtomicWaker>,
    pub task: T,
}

/// Registers an isolate. The queue is shared with the isolate's event loop,
/// which drains it without the registry. A registration that the isolate has
/// already is replaced.
pub fn register_isolate<T>(
    registry: &mut IsolateRegistry<T>,
    isolate_ptr: usize,
    waker: Arc<AtomicWaker>,
    handle: Handle,
    tasks: ForegroundTaskQueue<T>,
)
    ensures
        final(registry)@ == old(registry)@.insert(
            isolate_ptr,
            (IsolateEntry { waker, handle, tasks }),
        ),
{
    registry.entries.insert(isolate_ptr, IsolateEntry { waker, handle, tasks });
}

/// Takes an isolate out of the registry. Nothing happens where it is not
/// registered.
pub fn unregister_isolate<T>(registry: &mut IsolateRegistry<T>, isolate_ptr: usize)
    ensures
        final(registry)@ == old(registry)@.remove(isolate_ptr),
{
    registry.entries.remove(&isolate_ptr);
}

/// Where a task that is posted to the isolate `key` goes: to the isolate's
/// queue, or nowhere when the isolate is not registered.
pub open spec fn delivery_of<T>(
    entries: Map<usize, IsolateEntry<T>>,
    key: usize,
    task: T,
) -> Option<Delivery<T>> {
    if entries.contains_key(key) {
        Some(Delivery { tasks: entries[key].tasks, waker: entries[key].waker, task })
    } else {
        None
    }
}

/// Addresses an immediate foreground task to its isolate. A task for an isolate
/// that is not registered is dropped.
///
/// The caller locks the queue of the delivery, lets it push the task, unlocks
/// the queue and wakes the event loop, all before the registry changes again.
pub fn queue_task<T>(registry: &IsolateRegistry<T>, key: usize, task: T) -> (delivery: Option<
    Delivery<T>,
>)
    ensures
        delivery == delivery_of(registry@, key, task),
{
    match registry.entries.get(&key) {
        Some(entry) => Some(
            Delivery { tasks: entry.tasks.clone(), waker: entry.waker.clone(), task },
        ),
        None => None,
    }
}

/// Addresses a delayed foreground task to its isolate. A task for an isolate
/// that is not registered is dropped.
///
/// The caller lets the delivery wait on the runtime, the one that the isolate
/// was registered with, until the delay is over. Then it is completed like that
/// of an immediate task: the task is queued, and not run where it waited.
pub fn spawn_delayed_task<T>(registry: &IsolateRegistry<T>, key: usize, task: T) -> (spawned:
    Option<(&Handle, Delivery<T>)>)
    ensures
        spawned == match delivery_of(registry@, key, task) {
            Some(delivery) => Some((&registry@[key].handle, delivery)),
            None => None,
        },
{
    match registry.entries.get(&key) {
        Some(entry) => Some(
            (
                &entry.handle,
                Delivery { tasks: entry.tasks.clone(), waker: entry.waker.clone(), task },
            ),
        ),
        None => None,
    }
}

impl<T> Delivery<T> {
    /// Puts the task behind those that are queued already. `tasks` is what the
    /// lock of the delivery's own queue guards.
    pub fn push(self, tasks: &mut Vec<T>) -> (pending: PendingWake)
        ensures
            final(tasks)@ == old(tasks)@.push(self.task),
            pending.waker() == self.waker,
    {
        tasks.push(self.task);
        PendingWake::new(self.waker)
    }
}

impl PendingWake {
    /// Wakes the event loop, once.
    pub fn wake(self) -> (woken: EventLoopWoken)
        ensures
            woken.waker() == self.waker(),
    {
        wake_event_loop(self)
    }
}

/// A change of the registry.
#[verifier::reject_recursive_types(T)]
pub enum RegistryChange<T> {
    Register(usize, IsolateEntry<T>),
    Unregister(usize),
}

/// The registry after one more change.
pub open spec fn changed<T>(
    entries: Map<usize, IsolateEntry<T>>,
    change: RegistryChange<T>,
) -> Map<usize, IsolateEntry<T>> {
    match change {
        RegistryChange::Register(key, entry) => entries.insert(key, entry),
        RegistryChange::Unregister(key) => entries.remove(key),
    }
}

/// The registry after `changes`, the oldest first, from an empty one on.
pub open spec fn registry_after<T>(changes: Seq<RegistryChange<T>>) -> Map<usize, IsolateEntry<T>>
    decreases changes.len(),
{
    if changes.len() == 0 {
        Map::empty()
    } else {
        changed(registry_after(changes.drop_last()), changes.last())
    }
}

/// What the latest of the changes that concern the isolate `key` made of it:
/// its entry, or nothing where it was never registered or has been taken out.
pub open spec fn latest_registration<T>(changes: Seq<RegistryChange<T>>, key: usize) -> Option<
    IsolateEntry<T>,
>
    decreases changes.len(),
{
    if changes.len() == 0 {
        None
    } else {
        match changes.last() {
            RegistryChange::Register(k, entry) if k == key => Some(entry),
            RegistryChange::Unregister(k) if k == key => None,
            _ => latest_registration(changes.drop_last(), key),
        }
    }
}

/// A task goes to the queue and the waker of the isolate's latest registration,
/// and is dropped where the isolate was taken out since or never registered.
/// Changes that concern other isolates make no difference.
pub proof fn law_task_goes_to_latest_registration<T>(
    changes: Seq<RegistryChange<T>>,
    key: usize,
    task: T,
)
    ensures
        delivery_of(registry_after(changes), key, task) == match latest_registration(
            changes,
            key,
        ) {
            Some(entry) => Some(Delivery { tasks: entry.tasks, waker: entry.waker, task }),
            None => None,
        },
    decreases changes.len(),
{
    if changes.len() > 0 {
        law_task_goes_to_latest_registration(changes.drop_last(), key, task);
    }
}

/// A task for a registered isolate is delivered as it is, into the isolate's own
/// queue and with the isolate's own waker. A task is dropped if and only if its
/// isolate is not registered.
pub proof fn law_delivery_is_that_of_the_isolate<T>(
    entries: Map<usize, IsolateEntry<T>>,
    key: usize,
    task: T,
)
    ensures
        delivery_of(entries, key, task) is Some <==> entries.dom().contains(key),
        delivery_of(entries, key, task) matches Some(delivery) ==> {
            &&& delivery.task == task
            &&& delivery.tasks == entries[key].tasks
            &&& delivery.waker == entries[key].waker
        },
{
}

/// A registration serves its own isolate and changes nothing for the others; to
/// take an isolate out stops its tasks and changes nothing for the others.
pub proof fn law_isolates_are_independent<T>(
    entries: Map<usize, IsolateEntry<T>>,
    key: usize,
    entry: IsolateEntry<T>,
    other: usize,
    task: T,
)
    ensures
        delivery_of(entries.insert(key, entry), key, task) matches Some(delivery)
            && delivery.tasks == entry.tasks && delivery.waker == entry.waker && delivery.task
            == task,
        delivery_of(entries.remove(key), key, task) is None,
        other != key ==> delivery_of(entries.insert(key, entry), other, task) == delivery_of(
            entries,
            other,
            task,
        ),
        other != key ==> delivery_of(entries.remove(key), other, task) == delivery_of(
            entries,
            other,
            task,
        ),
{
}

/// Taking out an isolate that was not registered before undoes its
/// registration.
pub proof fn law_unregister_undoes_register<T>(
    entries: Map<usize, IsolateEntry<T>>,
    key: usize,
    entry: IsolateEntry<T>,
)
    requires
        !entries.contains_key(key),
    ensures
        changed(
            changed(entries, RegistryChange::Register(key, entry)),
            RegistryChange::Unregister(key),
        ) == entries,
{
    assert(entries.insert(key, entry).remove(key) =~= entries);
}

/// Only the last one of several registrations of an isolate counts.
pub proof fn law_register_replaces<T>(
    entries: Map<usize, IsolateEntry<T>>,
    key: usize,
    first: IsolateEntry<T>,
    second: IsolateEntry<T>,
)
    ensures
        changed(
            changed(entries, RegistryChange::Register(key, first)),
            RegistryChange::Register(key, second),
        ) == changed(entries, RegistryChange::Register(key, second)),
{
    assert(entries.insert(key, first).insert(key, second) =~= entries.insert(key, second));
}

/// What a queue holds after `deliveries` were completed on it one after the
/// other.
pub open spec fn queue_after<T>(queued: Seq<T>, deliveries: Seq<Delivery<T>>) -> Seq<T>
    decreases deliveries.len(),
{
    if deliveries.len() == 0 {
        queued
    } else {
        queue_after(queued, deliveries.drop_last()).push(deliveries.last().task)
    }
}

/// A queue keeps the tasks in the order in which their deliveries were
/// completed, behind those that were there before. None is lost.
pub proof fn law_tasks_stay_in_order<T>(queued: Seq<T>, deliveries: Seq<Delivery<T>>)
    ensures
        queue_after(queued, deliveries) == queued + deliveries.map_values(
            |delivery: Delivery<T>| delivery.task,
        ),
    decreases deliveries.len(),
{
    let task_of = |delivery: Delivery<T>| delivery.task;
    if deliveries.len() == 0 {
        assert(queued + deliveries.map_values(task_of) =~= queued);
    } else {
        law_tasks_stay_in_order(queued, deliveries.drop_last());
        assert(deliveries.map_values(task_of) =~= deliveries.drop_last().map_values(task_of).push(
            deliveries.last().task,
        ));
        assert(queued + deliveries.map_values(task_of) =~= (queued
            + deliveries.drop_last().map_values(task_of)).push(deliveries.last().task));
    }
}

/// What calls of [`queue_task`] and [`spawn_delayed_task`] give: the task as it is
/// with the queue and the waker of its isolate, for a delayed task also the
/// isolate's runtime, and nothing if and only if the isolate is not registered.
pub proof fn law_tasks_are_addressed_to_their_isolate<T>(
    registry: IsolateRegistry<T>,
    key: usize,
    task: T,
    delivery: Option<Delivery<T>>,
    spawned: Option<(&Handle, Delivery<T>)>,
)
    requires
        call_ensures(queue_task::<T>, (&registry, key, task), delivery),
        call_ensures(spawn_delayed_task::<T>, (&registry, key, task), spawned),
    ensures
        delivery is Some <==> registry@.dom().contains(key),
        spawned is Some <==> registry@.dom().contains(key),
        delivery matches Some(d) ==> {
            &&& d.task == task
            &&& d.tasks == registry@[key].tasks
            &&& d.waker == registry@[key].waker
        },
        spawned matches Some((handle, d)) ==> {
            &&& *handle == registry@[key].handle
            &&& d.task == task
            &&& d.tasks == registry@[key].tasks
            &&& d.waker == registry@[key].waker
        },
{
}

/// What a call of [`register_isolate`] does: the isolate is registered with what
/// was given, and every other isolate stays as it was.
pub proof fn law_registration_is_for_one_isolate<T>(
    registry: &mut IsolateRegistry<T>,
    isolate_ptr: usize,
    waker: Arc<AtomicWaker>,
    handle: Handle,
    tasks: ForegroundTaskQueue<T>,
    other: usize,
)
    requires
        call_ensures(register_isolate::<T>, (registry, isolate_ptr, waker, handle, tasks), ()),
    ensures
        final(registry)@.dom().contains(isolate_ptr),
        final(registry)@[isolate_ptr].waker == waker,
        final(registry)@[isolate_ptr].handle == handle,
        final(registry)@[isolate_ptr].tasks == tasks,
        other != isolate_ptr ==> {
            &&& final(registry)@.dom().contains(other) <==> old(registry)@.dom().contains(other)
            &&& old(registry)@.dom().contains(other) ==> final(registry)@[other] == old(
                registry,
            )@[other]
        },
{
}

/// What a call of [`unregister_isolate`] does: the isolate is not registered
/// afterwards, and every other isolate stays as it was.
pub proof fn law_removal_is_for_one_isolate<T>(
    registry: &mut IsolateRegistry<T>,
    isolate_ptr: usize,
    other: usize,
)
    requires
        call_ensures(unregister_isolate::<T>, (registry, isolate_ptr), ()),
    ensures
        !final(registry)@.dom().contains(isolate_ptr),
        other != isolate_ptr ==> {
            &&& final(registry)@.dom().contains(other) <==> old(registry)@.dom().contains(other)
            &&& old(registry)@.dom().contains(other) ==> final(registry)@[other] == old(
                registry,
            )@[other]
        },
{
}

/// A call of [`IsolateRegistry::new`] gives a registry without any isolate.
pub proof fn law_new_registry_is_empty<T>(registry: IsolateRegistry<T>, key: usize)
    requires
        call_ensures(IsolateRegistry::<T>::new, (), registry),
    ensures
        !registry@.dom().contains(key),
{
}

/// What a call of [`Delivery::push`] does: the queue has one task more, the one
/// delivered, behind those that it had, and the waker to wake is the delivery's.
pub proof fn law_delivered_task_is_the_last<T>(
    delivery: Delivery<T>,
    tasks: &mut Vec<T>,
    pending: PendingWake,
    i: int,
)
    requires
        call_ensures(Delivery::<T>::push, (delivery, tasks), pending),
    ensures
        final(tasks)@.len() == old(tasks)@.len() + 1,
        final(tasks)@.last() == delivery.task,
        0 <= i < old(tasks)@.len() ==> final(tasks)@[i] == old(tasks)@[i],
        pending.waker() == delivery.waker,
{
}

} // verus!
