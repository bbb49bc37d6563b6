use interprocess::listener::{Listener, ListenerOptions, Stream};
use interprocess::name::{Backend, NameInner};
use std::borrow::Cow;
use std::task::Poll;
use widestring::U16CString;

fn socket_path() -> NameInner<'static> {
    NameInner::UdSocketPath(Cow::Borrowed(b"/tmp/example.sock"))
}

fn bind(options: ListenerOptions<'_>) -> Listener<u32> {
    Listener::from_options(options, Ok::<u32, &str>(7)).unwrap()
}

#[test]
fn options_reclaim_by_default() {
    let options = ListenerOptions::new(socket_path());
    assert!(options.reclaim_name);
    assert_eq!(options.name, socket_path());
    let off = options.reclaim_name(false);
    assert!(!off.reclaim_name);
    assert_eq!(off.name, socket_path());
    assert!(off.reclaim_name(true).reclaim_name);
}

#[test]
fn from_options_keeps_name_and_handle() {
    let listener = bind(ListenerOptions::new(socket_path()));
    assert_eq!(listener.backend(), Backend::UdSocket);
    assert_eq!(*listener.native(), 7);
    assert_eq!(*listener.name(), socket_path());
    assert!(listener.reclaims_name());
}

#[test]
fn from_options_picks_pipe_backend_for_pipe_name() {
    let name = NameInner::NamedPipe(Cow::Owned(U16CString::from_vec(vec![0x70u16]).unwrap()));
    let listener = bind(ListenerOptions::new(name.clone()));
    assert_eq!(listener.backend(), Backend::NamedPipe);
    assert_eq!(*listener.name(), name);
}

#[test]
fn from_options_passes_bind_error_on() {
    let failed: Result<Listener<u32>, &str> =
        Listener::from_options(ListenerOptions::new(socket_path()), Err("address in use"));
    assert_eq!(failed.err(), Some("address in use"));
}

#[test]
fn accept_wraps_one_connection() {
    let listener = bind(ListenerOptions::new(socket_path()));
    assert_eq!(listener.accept(Ok::<u8, &str>(3)), Ok(Stream::UdSocket(3)));
    let pipe = bind(ListenerOptions::new(NameInner::default(Backend::NamedPipe)));
    assert_eq!(pipe.accept(Ok::<u8, &str>(4)), Ok(Stream::NamedPipe(4)));
}

#[test]
fn accept_error_yields_no_stream_and_does_not_poison() {
    let listener = bind(ListenerOptions::new(socket_path()));
    assert_eq!(listener.accept(Err::<u8, &str>("aborted")), Err("aborted"));
    assert_eq!(listener.accept(Ok::<u8, &str>(5)), Ok(Stream::UdSocket(5)));
    assert!(listener.reclaims_name());
}

#[test]
fn pending_accept_leaves_listener_ready_for_the_next() {
    let listener = bind(ListenerOptions::new(socket_path()));
    assert_eq!(listener.poll_next(Poll::<Result<u8, &str>>::Pending), Poll::Pending);
    assert_eq!(listener.accept(Ok::<u8, &str>(9)), Ok(Stream::UdSocket(9)));
    assert_eq!(*listener.native(), 7);
    assert_eq!(*listener.name(), socket_path());
}

#[test]
fn poll_next_never_ends_the_sequence() {
    let listener = bind(ListenerOptions::new(socket_path()));
    assert_eq!(
        listener.poll_next(Poll::Ready(Ok::<u8, &str>(1))),
        Poll::Ready(Some(Ok(Stream::UdSocket(1))))
    );
    assert_eq!(
        listener.poll_next(Poll::Ready(Err::<u8, &str>("reset"))),
        Poll::Ready(Some(Err("reset")))
    );
    assert_eq!(listener.poll_next(Poll::<Result<u8, &str>>::Pending), Poll::Pending);
    assert!(!listener.is_terminated());
}

#[test]
fn listener_reclaims_socket_path_by_default() {
    let listener = bind(ListenerOptions::new(socket_path()));
    assert_eq!(listener.into_parts(), (7, Some(b"/tmp/example.sock".to_vec())));
}

#[test]
fn opted_out_listener_reclaims_nothing() {
    let mut listener = bind(ListenerOptions::new(socket_path()));
    listener.do_not_reclaim_name_on_drop();
    assert!(!listener.reclaims_name());
    assert_eq!(listener.backend(), Backend::UdSocket);
    assert_eq!(*listener.name(), socket_path());
    listener.do_not_reclaim_name_on_drop();
    assert!(!listener.reclaims_name());
    assert_eq!(listener.into_parts(), (7, None));
}

#[test]
fn options_can_switch_reclamation_off() {
    let listener = bind(ListenerOptions::new(socket_path()).reclaim_name(false));
    assert!(!listener.reclaims_name());
    assert_eq!(listener.into_parts(), (7, None));
}

#[test]
fn listener_reclaims_stand_in_socket_file_by_default() {
    let pseudo = NameInner::UdSocketPseudoNs(Cow::Borrowed(b"/run/example.sock"));
    let listener = bind(ListenerOptions::new(pseudo));
    assert_eq!(listener.into_parts(), (7, Some(b"/run/example.sock".to_vec())));
}

#[test]
fn opted_out_listener_leaves_stand_in_socket_file() {
    let pseudo = NameInner::UdSocketPseudoNs(Cow::Owned(b"/run/example.sock".to_vec()));
    let mut listener = bind(ListenerOptions::new(pseudo));
    listener.do_not_reclaim_name_on_drop();
    assert_eq!(listener.into_parts(), (7, None));
}

#[test]
fn namespaced_names_reclaim_nothing() {
    let namespaced = NameInner::UdSocketNs(Cow::Borrowed(b"example"));
    assert_eq!(bind(ListenerOptions::new(namespaced)).into_parts(), (7, None));
    let pipe = NameInner::default(Backend::NamedPipe);
    assert_eq!(bind(ListenerOptions::new(pipe)).into_parts(), (7, None));
}

#[test]
fn stream_takes_the_tag_of_its_backend() {
    assert_eq!(Stream::from(Backend::NamedPipe, 1u8), Stream::NamedPipe(1));
    assert_eq!(Stream::from(Backend::UdSocket, 2u8), Stream::UdSocket(2));
}
