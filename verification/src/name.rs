//! Names of local socket endpoints.
//!
//! A name says where a local socket lives: a named pipe, a socket file, a socket file that
//! stands in for a namespaced name, or a name in the kernel's own socket namespace. Each form
//! holds its text either borrowed or owned, and [`NameInner::borrow`] and
//! [`NameInner::into_owned`] move between the two without changing what is named.

use crate::wide::{wide_as_ucstr, wide_empty, wide_eq, wide_string_units, wide_to_owned, wide_units};
use std::borrow::Cow;
use vstd::prelude::*;
use vstd::std_specs::cmp::{PartialEqSpec, PartialEqSpecImpl};
use widestring::U16CStr;

verus! {

/// The transport that carries local sockets on a target.
#[derive(Copy, Clone, Debug, PartialEq, Eq, Structural)]
pub enum Backend {
    /// Named pipes.
    NamedPipe,
    /// Unix domain sockets.
    UdSocket,
}

/// The kind of target that a program runs on, as far as local socket names go.
#[derive(Copy, Clone, Debug, PartialEq, Eq, Structural)]
pub enum Platform {
    /// Windows, where local sockets are named pipes.
    Windows,
    /// Linux and Android, where Unix domain sockets also live in a namespace of the kernel.
    Linux,
    /// Any other Unix, where Unix domain sockets are socket files.
    Unix,
}

impl Platform {
    /// The backend that carries local sockets on the platform.
    pub open spec fn backend_of(self) -> Backend {
        match self {
            Platform::Windows => Backend::NamedPipe,
            Platform::Linux => Backend::UdSocket,
            Platform::Unix => Backend::UdSocket,
        }
    }

    /// The backend that carries local sockets on the platform.
    pub fn backend(self) -> (r: Backend)
        ensures
            r == self.backend_of(),
    {
        match self {
            Platform::Windows => Backend::NamedPipe,
            Platform::Linux => Backend::UdSocket,
            Platform::Unix => Backend::UdSocket,
        }
    }
}

/// What a name says, whoever owns its text.
pub enum NameView {
    /// Units of a pipe name, terminating nul included.
    NamedPipe(Seq<u16>),
    /// Bytes of the path of a socket file.
    UdSocketPath(Seq<u8>),
    /// Bytes of the path of a socket file that stands in for a namespaced name.
    UdSocketPseudoNs(Seq<u8>),
    /// Bytes of a name in the kernel's socket namespace.
    UdSocketNs(Seq<u8>),
}

impl NameView {
    /// The name lives in a namespace of the kernel and leaves nothing in the filesystem.
    pub open spec fn is_namespaced(self) -> bool {
        self is NamedPipe || self is UdSocketNs
    }

    /// The name is the path of an object in the filesystem.
    pub open spec fn is_path(self) -> bool {
        self is UdSocketPath
    }

    /// The path of the socket file that a listener on the name leaves in the filesystem, if
    /// it leaves one: every name does that is not namespaced.
    pub open spec fn socket_file(self) -> Option<Seq<u8>> {
        match self {
            NameView::UdSocketPath(path) => Some(path),
            NameView::UdSocketPseudoNs(path) => Some(path),
            NameView::NamedPipe(_) => None,
            NameView::UdSocketNs(_) => None,
        }
    }

    /// The backend that serves the name.
    pub open spec fn backend(self) -> Backend {
        if self is NamedPipe {
            Backend::NamedPipe
        } else {
            Backend::UdSocket
        }
    }

    /// The platform has names of this form: pipe names on Windows alone, the two forms that
    /// are socket files on every Unix, names in the socket namespace on Linux alone.
    pub open spec fn supported_on(self, platform: Platform) -> bool {
        match self {
            NameView::NamedPipe(_) => platform == Platform::Windows,
            NameView::UdSocketPath(_) => platform != Platform::Windows,
            NameView::UdSocketPseudoNs(_) => platform != Platform::Windows,
            NameView::UdSocketNs(_) => platform == Platform::Linux,
        }
    }

    /// The empty name of a backend: an empty pipe name, or an empty socket path.
    pub open spec fn empty(backend: Backend) -> NameView {
        match backend {
            Backend::NamedPipe => NameView::NamedPipe(seq![0u16]),
            Backend::UdSocket => NameView::UdSocketPath(Seq::empty()),
        }
    }
}

/// The units of a pipe name, borrowed or owned.
pub open spec fn wide_cow_units(name: &Cow<'_, U16CStr>) -> Seq<u16> {
    match name {
        Cow::Borrowed(s) => wide_units(s),
        Cow::Owned(s) => wide_string_units(s),
    }
}

/// The pipe name as a slice, whoever owns it.
fn wide_cow_as_ref<'a>(name: &'a Cow<'_, U16CStr>) -> (s: &'a U16CStr)
    ensures
        wide_units(s) == wide_cow_units(name),
{
    match name {
        Cow::Borrowed(s) => s,
        Cow::Owned(s) => wide_as_ucstr(s),
    }
}

/// The pipe name with its text owned: copied if it was borrowed.
fn wide_cow_into_owned(name: Cow<'_, U16CStr>) -> (owned: Cow<'static, U16CStr>)
    ensures
        wide_cow_units(&owned) == wide_cow_units(&name),
        owned is Owned,
        name is Owned ==> owned == name,
{
    match name {
        Cow::Borrowed(s) => Cow::Owned(wide_to_owned(s)),
        Cow::Owned(s) => Cow::Owned(s),
    }
}

/// A second pipe name with the same units and the same kind of ownership.
fn wide_cow_clone<'s>(name: &Cow<'s, U16CStr>) -> (copy: Cow<'s, U16CStr>)
    ensures
        wide_cow_units(&copy) == wide_cow_units(name),
        copy is Owned == name is Owned,
{
    match name {
        Cow::Borrowed(s) => Cow::Borrowed(*s),
        Cow::Owned(s) => Cow::Owned(wide_to_owned(wide_as_ucstr(s))),
    }
}

/// The bytes as a slice, whoever owns them.
fn bytes_cow_as_ref<'a>(name: &'a Cow<'_, [u8]>) -> (s: &'a [u8])
    ensures
        s@ == name@,
{
    match name {
        Cow::Borrowed(s) => s,
        Cow::Owned(s) => s.as_slice(),
    }
}

/// The bytes owned: copied if they were borrowed.
fn bytes_cow_into_owned(name: Cow<'_, [u8]>) -> (owned: Cow<'static, [u8]>)
    ensures
        owned@ == name@,
        owned is Owned,
        name is Owned ==> owned == name,
{
    match name {
        Cow::Borrowed(s) => Cow::Owned(vstd::slice::slice_to_vec(s)),
        Cow::Owned(s) => Cow::Owned(s),
    }
}

/// A second run of the same bytes with the same kind of ownership.
fn bytes_cow_clone<'s>(name: &Cow<'s, [u8]>) -> (copy: Cow<'s, [u8]>)
    ensures
        copy@ == name@,
        copy is Owned == name is Owned,
{
    match name {
        Cow::Borrowed(s) => Cow::Borrowed(*s),
        Cow::Owned(s) => Cow::Owned(vstd::slice::slice_to_vec(s.as_slice())),
    }
}

/// Whether two runs of bytes are the same.
fn bytes_eq(a: &[u8], b: &[u8]) -> (r: bool)
    ensures
        r == (a@ == b@),
{
    if a.len() != b.len() {
        return false;
    }
    let mut i: usize = 0;
    while i < a.len()
        invariant
            a@.len() == b@.len(),
            i <= a@.len(),
            forall|j: int| 0 <= j < i ==> a@[j] == b@[j],
        decreases a@.len() - i,
    {
        if a[i] != b[i] {
            return false;
        }
        i = i + 1;
    }
    assert(a@ =~= b@);
    true
}

/// The name of a local socket endpoint.
#[derive(Debug, Eq)]
pub enum NameInner<'s> {
    /// A named pipe, by its wide-character name.
    NamedPipe(Cow<'s, U16CStr>),
    /// A Unix domain socket, by the path of its socket file.
    UdSocketPath(Cow<'s, [u8]>),
    /// A Unix domain socket whose namespaced name is stood in for by the path of a socket file.
    UdSocketPseudoNs(Cow<'s, [u8]>),
    /// A Unix domain socket in the kernel's socket namespace.
    UdSocketNs(Cow<'s, [u8]>),
}

impl<'s> View for NameInner<'s> {
    type V = NameView;

    open spec fn view(&self) -> NameView {
        match self {
            NameInner::NamedPipe(name) => NameView::NamedPipe(wide_cow_units(name)),
            NameInner::UdSocketPath(name) => NameView::UdSocketPath(name@),
            NameInner::UdSocketPseudoNs(name) => NameView::UdSocketPseudoNs(name@),
            NameInner::UdSocketNs(name) => NameView::UdSocketNs(name@),
        }
    }
}

impl<'s> Clone for NameInner<'s> {
    /// A second name that says the same: borrowed from the same text if this one borrows,
    /// with a copy of the text if this one owns it.
    fn clone(&self) -> (copy: Self)
        ensures
            copy@ == self@,
            copy.is_owned() == self.is_owned(),
    {
        match self {
            NameInner::NamedPipe(name) => NameInner::NamedPipe(wide_cow_clone(name)),
            NameInner::UdSocketPath(name) => NameInner::UdSocketPath(bytes_cow_clone(name)),
            NameInner::UdSocketPseudoNs(name) => NameInner::UdSocketPseudoNs(
                bytes_cow_clone(name),
            ),
            NameInner::UdSocketNs(name) => NameInner::UdSocketNs(bytes_cow_clone(name)),
        }
    }
}

impl<'s> PartialEq for NameInner<'s> {
    /// Two names are equal when they are of the same form and say the same, whoever owns their
    /// text.
    fn eq(&self, other: &Self) -> (r: bool) {
        match (self, other) {
            (NameInner::NamedPipe(a), NameInner::NamedPipe(b)) => wide_eq(
                wide_cow_as_ref(a),
                wide_cow_as_ref(b),
            ),
            (NameInner::UdSocketPath(a), NameInner::UdSocketPath(b)) => bytes_eq(
                bytes_cow_as_ref(a),
                bytes_cow_as_ref(b),
            ),
            (NameInner::UdSocketPseudoNs(a), NameInner::UdSocketPseudoNs(b)) => bytes_eq(
                bytes_cow_as_ref(a),
                bytes_cow_as_ref(b),
            ),
            (NameInner::UdSocketNs(a), NameInner::UdSocketNs(b)) => bytes_eq(
                bytes_cow_as_ref(a),
                bytes_cow_as_ref(b),
            ),
            _ => false,
        }
    }
}

impl<'s> PartialEqSpecImpl for NameInner<'s> {
    open spec fn obeys_eq_spec() -> bool {
        true
    }

    open spec fn eq_spec(&self, other: &Self) -> bool {
        self@ == other@
    }
}

impl<'s> NameInner<'s> {
    /// The name owns its text.
    pub open spec fn is_owned(&self) -> bool {
        match self {
            NameInner::NamedPipe(name) => name is Owned,
            NameInner::UdSocketPath(name) => name is Owned,
            NameInner::UdSocketPseudoNs(name) => name is Owned,
            NameInner::UdSocketNs(name) => name is Owned,
        }
    }

    /// `borrowed` is a borrowed copy of this name: it says the same and owns nothing.
    pub open spec fn borrows_as(&self, borrowed: &NameInner<'_>) -> bool {
        &&& borrowed@ == self@
        &&& !borrowed.is_owned()
    }

    /// `owned` is this name detached from what it borrowed: it says the same and owns its
    /// text, and it is this very name if this name owned its text already.
    pub open spec fn detaches_as(&self, owned: &NameInner<'_>) -> bool {
        &&& owned@ == self@
        &&& owned.is_owned()
        &&& self.is_owned() ==> *owned == *self
    }

    /// The empty name of a backend, which owns its (empty) text.
    pub fn default(backend: Backend) -> (name: NameInner<'static>)
        ensures
            name@ == NameView::empty(backend),
            name.is_owned(),
    {
        match backend {
            Backend::NamedPipe => NameInner::NamedPipe(Cow::Owned(wide_empty())),
            Backend::UdSocket => NameInner::UdSocketPath(Cow::Owned(Vec::new())),
        }
    }

    /// Whether the name lives in a namespace of the kernel and leaves nothing in the
    /// filesystem.
    pub fn is_namespaced(&self) -> (r: bool)
        ensures
            r == self@.is_namespaced(),
    {
        match self {
            Self::NamedPipe(..) => true,
            Self::UdSocketPath(..) => false,
            Self::UdSocketPseudoNs(..) => false,
            Self::UdSocketNs(..) => true,
        }
    }

    /// Whether the name is the path of an object in the filesystem.
    pub fn is_path(&self) -> (r: bool)
        ensures
            r == self@.is_path(),
    {
        match self {
            Self::NamedPipe(..) => false,
            Self::UdSocketPath(..) => true,
            Self::UdSocketPseudoNs(..) => false,
            Self::UdSocketNs(..) => false,
        }
    }

    /// The backend that serves the name.
    pub fn backend(&self) -> (r: Backend)
        ensures
            r == self@.backend(),
    {
        match self {
            Self::NamedPipe(..) => Backend::NamedPipe,
            _ => Backend::UdSocket,
        }
    }

    /// Whether the platform has names of this form.
    pub fn is_supported_on(&self, platform: Platform) -> (r: bool)
        ensures
            r == self@.supported_on(platform),
    {
        match self {
            Self::NamedPipe(..) => platform == Platform::Windows,
            Self::UdSocketPath(..) => platform != Platform::Windows,
            Self::UdSocketPseudoNs(..) => platform != Platform::Windows,
            Self::UdSocketNs(..) => platform == Platform::Linux,
        }
    }

    /// A copy of the name that borrows its text from this one.
    pub fn borrow(&self) -> (borrowed: NameInner<'_>)
        ensures
            self.borrows_as(&borrowed),
    {
        match self {
            NameInner::NamedPipe(name) => NameInner::NamedPipe(
                Cow::Borrowed(wide_cow_as_ref(name)),
            ),
            NameInner::UdSocketPath(name) => NameInner::UdSocketPath(
                Cow::Borrowed(bytes_cow_as_ref(name)),
            ),
            NameInner::UdSocketPseudoNs(name) => NameInner::UdSocketPseudoNs(
                Cow::Borrowed(bytes_cow_as_ref(name)),
            ),
            NameInner::UdSocketNs(name) => NameInner::UdSocketNs(
                Cow::Borrowed(bytes_cow_as_ref(name)),
            ),
        }
    }

    /// The name with its text owned: copied if it was borrowed, moved if it was owned.
    pub fn into_owned(self) -> (owned: NameInner<'static>)
        ensures
            self.detaches_as(&owned),
    {
        match self {
            NameInner::NamedPipe(name) => NameInner::NamedPipe(wide_cow_into_owned(name)),
            NameInner::UdSocketPath(name) => NameInner::UdSocketPath(bytes_cow_into_owned(name)),
            NameInner::UdSocketPseudoNs(name) => NameInner::UdSocketPseudoNs(
                bytes_cow_into_owned(name),
            ),
            NameInner::UdSocketNs(name) => NameInner::UdSocketNs(bytes_cow_into_owned(name)),
        }
    }
}

/// The names of Windows and the names of a Unix have no form in common, the backend of a
/// platform serves every name that the platform has, and the empty name of that backend is
/// one of them.
pub proof fn lemma_platforms_keep_apart(name: NameView, platform: Platform)
    ensures
        name.supported_on(Platform::Windows) ==> !name.supported_on(Platform::Linux)
            && !name.supported_on(Platform::Unix),
        name.supported_on(Platform::Unix) ==> name.supported_on(Platform::Linux),
        name.supported_on(platform) ==> name.backend() == platform.backend_of(),
        NameView::empty(platform.backend_of()).supported_on(platform),
{
}

/// No name is both a path and namespaced, and a name leaves a socket file behind exactly when
/// it is not namespaced.
pub proof fn lemma_path_excludes_namespaced(name: NameInner<'_>)
    ensures
        !(name@.is_path() && name@.is_namespaced()),
        name@.socket_file() is None <==> name@.is_namespaced(),
        name@.is_path() ==> name@.socket_file() is Some,
{
}

/// Borrowing a name, or detaching it from what it borrowed, changes neither whether it is a
/// path nor whether it is namespaced, nor the backend that serves it.
pub proof fn lemma_conversion_keeps_classification(name: NameInner<'_>, converted: NameInner<'_>)
    requires
        name.borrows_as(&converted) || name.detaches_as(&converted),
    ensures
        converted@.is_path() == name@.is_path(),
        converted@.socket_file() == name@.socket_file(),
        converted@.is_namespaced() == name@.is_namespaced(),
        converted@.backend() == name@.backend(),
{
}

/// Borrowing a name and then detaching the borrowed copy gives a name equal to the first.
pub proof fn lemma_borrow_then_into_owned_is_equal(
    name: NameInner<'_>,
    borrowed: NameInner<'_>,
    owned: NameInner<'_>,
)
    requires
        name.borrows_as(&borrowed),
        borrowed.detaches_as(&owned),
    ensures
        PartialEqSpec::eq_spec(&owned, &name),
        owned@ == name@,
{
}

/// Detaching a name a second time changes nothing: the result is the name that the first
/// detaching gave.
pub proof fn lemma_into_owned_twice_is_once(
    name: NameInner<'_>,
    once: NameInner<'_>,
    twice: NameInner<'_>,
)
    requires
        name.detaches_as(&once),
        once.detaches_as(&twice),
    ensures
        twice == once,
        twice@ == name@,
{
}

} // verus!
