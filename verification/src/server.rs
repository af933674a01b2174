//! The lifecycle state of a running TCP or UDP service: whether it still
//! accepts work, the tasks it started and the sockets it listens on.

use vstd::prelude::*;
use crate::error::{Error, is_runtime_error};

verus! {

/// A TCP service attached to the runtime: whether it still accepts
/// connections, and the tasks `T` it started on the workers.
pub struct TcpServer<T> {
    active: bool,
    tasks: Vec<T>,
}

impl<T> TcpServer<T> {
    pub closed spec fn is_open(self) -> bool {
        self.active
    }

    pub closed spec fn task_list(self) -> Seq<T> {
        self.tasks@
    }

    /// An open service with no task.
    pub fn new() -> (res: Self)
        ensures
            res.is_open(),
            res.task_list() == Seq::<T>::empty(),
    {
        TcpServer { active: true, tasks: Vec::new() }
    }

    /// Whether the service still accepts connections.
    pub fn is_active(&self) -> (res: bool)
        ensures
            res == self.is_open(),
    {
        self.active
    }

    /// Records a task started for the service.
    pub fn register_task(&mut self, task: T)
        ensures
            final(self).is_open() == old(self).is_open(),
            final(self).task_list() == old(self).task_list().push(task),
    {
        self.tasks.push(task);
    }

    /// Stops the service: it accepts no more connections, and the tasks it
    /// started are handed back, in the order they were registered, to be
    /// cancelled.
    pub fn close(&mut self) -> (res: Vec<T>)
        ensures
            (final(self).is_open(), final(self).task_list(), res@) == spec_tcp_close(
                old(self).task_list(),
            ),
    {
        self.active = false;
        let mut tasks: Vec<T> = Vec::new();
        std::mem::swap(&mut tasks, &mut self.tasks);
        tasks
    }
}

/// What closing a UDP service leaves to be done: the sockets to shut down,
/// the tasks to cancel and the per-worker callback tasks to let go.
pub struct UdpClosePlan<T, S> {
    pub shutdown_sockets: Vec<S>,
    pub cancel_tasks: Vec<T>,
    pub release_tasks: Vec<T>,
}

/// Which socket a caller of `listener_socket` gets.
#[derive(Clone, Copy, Debug, PartialEq, Eq, Structural)]
pub enum ListenerSocketChoice {
    /// The socket that the calling worker thread listens on.
    ThreadLocal,
    /// The socket at this position of the service's socket pool.
    Pool(usize),
}

/// A UDP or QUIC service attached to the runtime: whether it still accepts
/// datagrams, the tasks `T` it started, and the listening sockets `S` it
/// must shut down when it closes.
pub struct UdpServer<T, S> {
    active: bool,
    tasks: Vec<T>,
    callback_tasks: Vec<T>,
    sockets: Vec<S>,
    close_sockets: Vec<S>,
    next_socket: usize,
}

pub open spec fn closed_message() -> Seq<char> {
    "server is closed"@
}

pub open spec fn no_socket_message() -> Seq<char> {
    "server has no listener socket"@
}

impl<T, S> UdpServer<T, S> {
    pub closed spec fn is_open(self) -> bool {
        self.active
    }

    pub closed spec fn task_list(self) -> Seq<T> {
        self.tasks@
    }

    pub closed spec fn callback_task_list(self) -> Seq<T> {
        self.callback_tasks@
    }

    /// The sockets that the workers listen on.
    pub closed spec fn socket_pool(self) -> Seq<S> {
        self.sockets@
    }

    /// Sockets held only to be shut down when the service closes.
    pub closed spec fn close_socket_list(self) -> Seq<S> {
        self.close_sockets@
    }

    /// How many pool picks have been made.
    pub closed spec fn picks(self) -> usize {
        self.next_socket
    }

    /// An open service with nothing registered.
    pub fn new() -> (res: Self)
        ensures
            res.is_open(),
            res.task_list() == Seq::<T>::empty(),
            res.callback_task_list() == Seq::<T>::empty(),
            res.socket_pool() == Seq::<S>::empty(),
            res.close_socket_list() == Seq::<S>::empty(),
            res.picks() == 0,
    {
        UdpServer {
            active: true,
            tasks: Vec::new(),
            callback_tasks: Vec::new(),
            sockets: Vec::new(),
            close_sockets: Vec::new(),
            next_socket: 0,
        }
    }

    pub fn is_active(&self) -> (res: bool)
        ensures
            res == self.is_open(),
    {
        self.active
    }

    pub fn register_task(&mut self, task: T)
        ensures
            final(self).is_open() == old(self).is_open(),
            final(self).callback_task_list() == old(self).callback_task_list(),
            final(self).socket_pool() == old(self).socket_pool(),
            final(self).close_socket_list() == old(self).close_socket_list(),
            final(self).picks() == old(self).picks(),
            final(self).task_list() == old(self).task_list().push(task),
    {
        self.tasks.push(task);
    }

    pub fn register_callback_task(&mut self, task: T)
        ensures
            final(self).is_open() == old(self).is_open(),
            final(self).task_list() == old(self).task_list(),
            final(self).socket_pool() == old(self).socket_pool(),
            final(self).close_socket_list() == old(self).close_socket_list(),
            final(self).picks() == old(self).picks(),
            final(self).callback_task_list() == old(self).callback_task_list().push(task),
    {
        self.callback_tasks.push(task);
    }

    /// Adds a listening socket to the pool.
    pub fn register_listener_socket(&mut self, socket: S)
        ensures
            final(self).is_open() == old(self).is_open(),
            final(self).task_list() == old(self).task_list(),
            final(self).callback_task_list() == old(self).callback_task_list(),
            final(self).close_socket_list() == old(self).close_socket_list(),
            final(self).picks() == old(self).picks(),
            final(self).socket_pool() == old(self).socket_pool().push(socket),
    {
        self.sockets.push(socket);
    }

    /// Keeps a socket only to shut it down on close.
    pub fn register_close_socket(&mut self, socket: S)
        ensures
            final(self).is_open() == old(self).is_open(),
            final(self).task_list() == old(self).task_list(),
            final(self).callback_task_list() == old(self).callback_task_list(),
            final(self).socket_pool() == old(self).socket_pool(),
            final(self).picks() == old(self).picks(),
            final(self).close_socket_list() == old(self).close_socket_list().push(socket),
    {
        self.close_sockets.push(socket);
    }

    /// Borrows the pool socket at `index`.
    pub fn pool_socket(&self, index: usize) -> (res: &S)
        requires
            index < self.socket_pool().len(),
        ensures
            *res == self.socket_pool()[index as int],
    {
        &self.sockets[index]
    }

    /// Chooses the socket handed to a caller who wants to send on the
    /// service: refused once the service is closed; the calling worker's own
    /// socket when it has one; otherwise a pool socket picked by a counter
    /// mixed with `seed`, or an error when the pool is empty. Each pool pick
    /// advances the counter (wrapping).
    pub fn choose_listener_socket(&mut self, thread_has_socket: bool, seed: usize) -> (res: Result<
        ListenerSocketChoice,
        Error,
    >)
        ensures
            !old(self).is_open() ==> (res matches Err(e) && is_runtime_error(e, closed_message())),
            old(self).is_open() && thread_has_socket ==> res == Ok::<ListenerSocketChoice, Error>(
                ListenerSocketChoice::ThreadLocal,
            ),
            old(self).is_open() && !thread_has_socket && old(self).socket_pool().len() == 0 ==> (
            res matches Err(e) && is_runtime_error(e, no_socket_message())),
            old(self).is_open() && !thread_has_socket && old(self).socket_pool().len() > 0 ==> res
                == Ok::<ListenerSocketChoice, Error>(
                ListenerSocketChoice::Pool(
                    ((old(self).picks() ^ seed) % (old(self).socket_pool().len() as usize)) as usize,
                ),
            ) && final(self).picks() == vstd::wrapping::usize_specs::wrapping_add(
                old(self).picks(),
                1,
            ),
            res matches Ok(ListenerSocketChoice::Pool(i)) ==> i < final(self).socket_pool().len(),
            final(self).socket_pool() == old(self).socket_pool(),
            final(self).is_open() == old(self).is_open(),
            final(self).task_list() == old(self).task_list(),
            final(self).callback_task_list() == old(self).callback_task_list(),
            final(self).close_socket_list() == old(self).close_socket_list(),
            !(old(self).is_open() && !thread_has_socket && old(self).socket_pool().len() > 0)
                ==> final(self).picks() == old(self).picks(),
    {
        if !self.active {
            return Err(Error::Runtime("server is closed".to_owned()));
        }
        if thread_has_socket {
            return Ok(ListenerSocketChoice::ThreadLocal);
        }
        if self.sockets.len() == 0 {
            return Err(Error::Runtime("server has no listener socket".to_owned()));
        }
        let pick = self.next_socket;
        self.next_socket = self.next_socket.wrapping_add(1);
        let index = (pick ^ seed) % self.sockets.len();
        Ok(ListenerSocketChoice::Pool(index))
    }

    /// Stops the service: it accepts no more datagrams, and what it holds is
    /// handed back — every listening and close-only socket to be shut down,
    /// the listener tasks to be cancelled, the callback tasks to be let go.
    pub fn close(&mut self) -> (res: UdpClosePlan<T, S>)
        ensures
            !final(self).is_open(),
            final(self).task_list() == Seq::<T>::empty(),
            final(self).callback_task_list() == Seq::<T>::empty(),
            final(self).socket_pool() == Seq::<S>::empty(),
            final(self).close_socket_list() == Seq::<S>::empty(),
            final(self).picks() == old(self).picks(),
            res.shutdown_sockets@ == old(self).socket_pool() + old(self).close_socket_list(),
            res.cancel_tasks@ == old(self).task_list(),
            res.release_tasks@ == old(self).callback_task_list(),
    {
        self.active = false;
        let mut shutdown_sockets: Vec<S> = Vec::new();
        std::mem::swap(&mut shutdown_sockets, &mut self.sockets);
        let mut close_sockets: Vec<S> = Vec::new();
        std::mem::swap(&mut close_sockets, &mut self.close_sockets);
        shutdown_sockets.append(&mut close_sockets);
        let mut cancel_tasks: Vec<T> = Vec::new();
        std::mem::swap(&mut cancel_tasks, &mut self.tasks);
        let mut release_tasks: Vec<T> = Vec::new();
        std::mem::swap(&mut release_tasks, &mut self.callback_tasks);
        UdpClosePlan { shutdown_sockets, cancel_tasks, release_tasks }
    }
}

/// What closing a TCP service in a given state leaves: the service closed
/// with no task, and the tasks handed back.
pub open spec fn spec_tcp_close<T>(tasks: Seq<T>) -> (bool, Seq<T>, Seq<T>) {
    (false, Seq::<T>::empty(), tasks)
}

/// Closing a service a second time hands back no task and leaves it closed.
pub proof fn lemma_close_is_idempotent<T>(tasks: Seq<T>)
    ensures
        spec_tcp_close(spec_tcp_close(tasks).1) == (false, Seq::<T>::empty(), Seq::<T>::empty()),
        spec_tcp_close(tasks).2 == tasks,
{
}

} // verus!
