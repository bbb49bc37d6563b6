//! The lifecycle of a local socket listener.
//!
//! A [`Listener`] wraps the native listener of the backend that serves its name. Binding,
//! waiting for a connection and removing a socket file are the caller's part. What is decided
//! here is which backend serves a name, what becomes of the outcome of a native call, and
//! whether the socket file is to be removed when the listener goes away.

use crate::name::{Backend, NameInner, NameView};
use core::task::Poll;
use std::borrow::Cow;
use vstd::prelude::*;

verus! {

/// `Poll` of the standard library, with its two variants as they are: `Ready` with a value,
/// and `Pending`.
#[verifier::external_type_specification]
#[verifier::reject_recursive_types(T)]
pub struct ExPoll<T>(Poll<T>);

/// How a listener is to be set up.
#[derive(Debug)]
pub struct ListenerOptions<'n> {
    /// The name to listen on.
    pub name: NameInner<'n>,
    /// Whether the socket file, if the name has one, is removed when the listener goes away.
    pub reclaim_name: bool,
}

impl<'n> ListenerOptions<'n> {
    /// Options for a listener on `name` that reclaims its name.
    pub open spec fn with_name(name: NameInner<'n>) -> Self {
        ListenerOptions { name, reclaim_name: true }
    }

    /// Options for a listener on `name`. Name reclamation is on unless it is switched off.
    pub fn new(name: NameInner<'n>) -> (options: Self)
        ensures
            options == Self::with_name(name),
    {
        ListenerOptions { name, reclaim_name: true }
    }

    /// The same options with name reclamation switched on or off.
    pub fn reclaim_name(self, flag: bool) -> (options: Self)
        ensures
            options.name == self.name,
            options.reclaim_name == flag,
    {
        ListenerOptions { name: self.name, reclaim_name: flag }
    }
}

/// A connection that a listener accepted, tagged with the backend that carries it.
#[derive(Debug, PartialEq, Eq)]
pub enum Stream<S> {
    /// A connection over a named pipe.
    NamedPipe(S),
    /// A connection over a Unix domain socket.
    UdSocket(S),
}

impl<S> Stream<S> {
    /// The native connection `native` as a stream of `backend`.
    pub open spec fn of(backend: Backend, native: S) -> Self {
        match backend {
            Backend::NamedPipe => Stream::NamedPipe(native),
            Backend::UdSocket => Stream::UdSocket(native),
        }
    }

    /// Wraps the native connection of a backend.
    pub fn from(backend: Backend, native: S) -> (stream: Self)
        ensures
            stream == Self::of(backend, native),
    {
        match backend {
            Backend::NamedPipe => Stream::NamedPipe(native),
            Backend::UdSocket => Stream::UdSocket(native),
        }
    }
}

/// What a listener is: its backend, its native listener, its name, and whether it still
/// reclaims the name.
pub struct ListenerView<L> {
    pub backend: Backend,
    pub native: L,
    pub name: NameView,
    pub reclaim_name: bool,
}

impl<L> ListenerView<L> {
    /// The listener that comes of binding `native` with `options`.
    pub open spec fn bound(options: ListenerOptions<'_>, native: L) -> Self {
        ListenerView {
            backend: options.name@.backend(),
            native,
            name: options.name@,
            reclaim_name: options.reclaim_name,
        }
    }

    /// The same listener with name reclamation switched off.
    pub open spec fn without_reclaim(self) -> Self {
        ListenerView { reclaim_name: false, ..self }
    }

    /// The path of the socket file that is to be removed when the listener goes away: the
    /// socket file of the name, if the listener reclaims its name and the name has one.
    pub open spec fn path_to_reclaim(self) -> Option<Seq<u8>> {
        if self.reclaim_name {
            self.name.socket_file()
        } else {
            None
        }
    }

    /// What `accept` returns for the outcome of the native call.
    pub open spec fn accepted<S, E>(self, incoming: Result<S, E>) -> Result<Stream<S>, E> {
        match incoming {
            Ok(native) => Ok(Stream::of(self.backend, native)),
            Err(error) => Err(error),
        }
    }

    /// What `poll_next` returns for one poll of the native accept.
    pub open spec fn polled<S, E>(self, polled: Poll<Result<S, E>>) -> Poll<
        Option<Result<Stream<S>, E>>,
    > {
        match polled {
            Poll::Ready(incoming) => Poll::Ready(Some(self.accepted(incoming))),
            Poll::Pending => Poll::Pending,
        }
    }
}

/// The bytes of a path as a vector: copied if they were borrowed.
fn into_bytes(path: Cow<'_, [u8]>) -> (bytes: Vec<u8>)
    ensures
        bytes@ == path@,
{
    match path {
        Cow::Borrowed(borrowed) => vstd::slice::slice_to_vec(borrowed),
        Cow::Owned(owned) => owned,
    }
}

/// A local socket server, listening for connections.
///
/// `L` is the native listener of the backend, which this type owns and never looks into.
#[derive(Debug)]
pub struct Listener<L> {
    backend: Backend,
    native: L,
    name: NameInner<'static>,
    reclaim_name: bool,
}

impl<L> View for Listener<L> {
    type V = ListenerView<L>;

    closed spec fn view(&self) -> ListenerView<L> {
        ListenerView {
            backend: self.backend,
            native: self.native,
            name: self.name@,
            reclaim_name: self.reclaim_name,
        }
    }
}

impl<L> Listener<L> {
    /// Makes a listener of the outcome of binding with `options`.
    ///
    /// `bound` is what the native bind returned for the name in `options` on the backend
    /// that serves that name. Its error is passed on as it is.
    pub fn from_options<E>(options: ListenerOptions<'_>, bound: Result<L, E>) -> (r: Result<
        Self,
        E,
    >)
        ensures
            match bound {
                Ok(native) => r is Ok && r->Ok_0@ == ListenerView::bound(options, native),
                Err(error) => r is Err && r->Err_0 == error,
            },
    {
        match bound {
            Ok(native) => {
                let backend = options.name.backend();
                Ok(
                    Listener {
                        backend,
                        native,
                        name: options.name.into_owned(),
                        reclaim_name: options.reclaim_name,
                    },
                )
            },
            Err(error) => Err(error),
        }
    }

    /// Makes a stream of the outcome of one native accept.
    ///
    /// A connection becomes a stream of this listener's backend, an error is passed on as it
    /// is, and the listener is the same afterwards either way.
    pub fn accept<S, E>(&self, incoming: Result<S, E>) -> (r: Result<Stream<S>, E>)
        ensures
            r == self@.accepted(incoming),
            r is Ok <==> incoming is Ok,
    {
        match incoming {
            Ok(native) => Ok(Stream::from(self.backend, native)),
            Err(error) => Err(error),
        }
    }

    /// Switches name reclamation off for good: nothing switches it on again.
    pub fn do_not_reclaim_name_on_drop(&mut self)
        ensures
            final(self)@ == old(self)@.without_reclaim(),
    {
        self.reclaim_name = false;
    }

    /// The next item of the endless sequence of incoming connections, given how the native
    /// accept was polled: a ready outcome is an item, and the sequence never ends.
    pub fn poll_next<S, E>(&self, polled: Poll<Result<S, E>>) -> (r: Poll<
        Option<Result<Stream<S>, E>>,
    >)
        ensures
            r == self@.polled(polled),
            r != Poll::<Option<Result<Stream<S>, E>>>::Ready(None),
    {
        match polled {
            Poll::Ready(incoming) => Poll::Ready(Some(self.accept(incoming))),
            Poll::Pending => Poll::Pending,
        }
    }

    /// Whether the sequence of incoming connections has ended. It never has.
    pub fn is_terminated(&self) -> (r: bool)
        ensures
            !r,
    {
        false
    }

    /// Takes the listener apart when it goes away: the native listener, to be closed, and the
    /// path of the socket file that is to be removed, if there is one.
    pub fn into_parts(self) -> (r: (L, Option<Vec<u8>>))
        ensures
            r.0 == self@.native,
            match self@.path_to_reclaim() {
                Some(path) => r.1 is Some && r.1->Some_0@ == path,
                None => r.1 is None,
            },
    {
        let path = if self.reclaim_name {
            match self.name {
                NameInner::UdSocketPath(path) => Some(into_bytes(path)),
                NameInner::UdSocketPseudoNs(path) => Some(into_bytes(path)),
                NameInner::NamedPipe(_) => None,
                NameInner::UdSocketNs(_) => None,
            }
        } else {
            None
        };
        (self.native, path)
    }

    /// The backend of the listener.
    pub fn backend(&self) -> (r: Backend)
        ensures
            r == self@.backend,
    {
        self.backend
    }

    /// The native listener.
    pub fn native(&self) -> (r: &L)
        ensures
            *r == self@.native,
    {
        &self.native
    }

    /// The name that the listener is bound to.
    pub fn name(&self) -> (r: &NameInner<'static>)
        ensures
            r@ == self@.name,
    {
        &self.name
    }

    /// Whether the listener still reclaims its name.
    pub fn reclaims_name(&self) -> (r: bool)
        ensures
            r == self@.reclaim_name,
    {
        self.reclaim_name
    }
}

/// Once name reclamation is switched off, no socket file is removed when the listener goes
/// away, and switching it off again changes nothing.
pub proof fn lemma_opting_out_reclaims_nothing<L>(listener: ListenerView<L>)
    ensures
        listener.without_reclaim().path_to_reclaim() is None,
        listener.without_reclaim().without_reclaim() == listener.without_reclaim(),
{
}

/// A wait that is given up takes no connection, and a wait that fails takes none either: the
/// poll comes back pending or with the error, and the same listener hands out the next
/// connection that is ready, as a stream of its backend.
pub proof fn lemma_next_connection_is_handed_out<L, S, E>(
    listener: ListenerView<L>,
    error: E,
    connection: S,
)
    ensures
        listener.polled::<S, E>(Poll::Pending) == Poll::<Option<Result<Stream<S>, E>>>::Pending,
        listener.accepted::<S, E>(Err(error)) == Err::<Stream<S>, E>(error),
        listener.polled(Poll::Ready(Ok::<S, E>(connection))) == Poll::Ready(
            Some(Ok::<Stream<S>, E>(Stream::of(listener.backend, connection))),
        ),
{
}

/// A listener bound with fresh options removes the socket file of its name when it goes away:
/// the file of a socket path and the file that stands in for a namespaced name alike. A pipe
/// name and a name in the socket namespace have no file, and nothing is removed for them.
pub proof fn lemma_default_reclaims_socket_file<L>(name: NameInner<'_>, native: L)
    ensures
        ListenerView::bound(ListenerOptions::with_name(name), native).path_to_reclaim()
            == name@.socket_file(),
        name@.is_namespaced() ==> ListenerView::bound(
            ListenerOptions::with_name(name),
            native,
        ).path_to_reclaim() is None,
        !name@.is_namespaced() ==> ListenerView::bound(
            ListenerOptions::with_name(name),
            native,
        ).path_to_reclaim() is Some,
{
}

} // verus!
