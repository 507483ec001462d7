use vstd::prelude::*;

verus! {

/// The kinds of native object, one per opaque structure of the C interface.
#[derive(Debug, Clone, Copy, PartialEq, Eq, Structural)]
pub enum Kind {
    Database,
    Directory,
    Query,
    Threads,
    Thread,
    Messages,
    Message,
    Tags,
    Filenames,
    ConfigList,
    ConfigValues,
    ConfigPairs,
    MessageProperties,
    IndexOpts,
}

/// How a child refers to the object it was derived from.
///
/// `Owned`: the child took over the caller's handle of its parent.
/// `Borrowed`: the parent must outlive the child, and is not kept alive by it.
/// `Shared`: the child keeps its parent alive as long as it lives itself.
#[derive(Debug, Clone, Copy, PartialEq, Eq, Structural)]
pub enum Mode {
    Owned,
    Borrowed,
    Shared,
}

/// Why the registry refused an operation.
#[derive(Debug, Clone, Copy, PartialEq, Eq, Structural)]
pub enum RegistryError {
    /// The handle names no live object, or one whose handles were all released.
    Stale,
    /// The kind of the new object cannot be derived from the given parent.
    WrongParent,
    /// The native pointer is null.
    NullPointer,
    /// The native pointer belongs to an object that is still alive.
    AlreadyRegistered,
    /// The last handle of an object cannot go while a borrowed child lives.
    BorrowOutstanding,
    /// A count would leave the range of `u64`.
    Overflow,
    /// The handle was not obtained as a borrow.
    NotBorrowed,
    /// There is no open section to close.
    Unbalanced,
}

/// The resource tree: which kinds each kind may be derived from.
pub open spec fn may_derive(child: Kind, parent: Kind) -> bool {
    match child {
        Kind::Database => false,
        Kind::Directory | Kind::Query | Kind::ConfigList | Kind::ConfigValues
        | Kind::ConfigPairs | Kind::IndexOpts => parent == Kind::Database,
        Kind::Threads => parent == Kind::Query,
        Kind::Thread => parent == Kind::Query || parent == Kind::Threads,
        Kind::Messages => parent == Kind::Query || parent == Kind::Message || parent
            == Kind::Messages || parent == Kind::Thread,
        Kind::Message => parent == Kind::Database || parent == Kind::Messages || parent
            == Kind::Thread || parent == Kind::Query,
        Kind::Tags => parent == Kind::Database || parent == Kind::Message || parent
            == Kind::Messages || parent == Kind::Thread,
        Kind::Filenames => parent == Kind::Directory || parent == Kind::Message,
        Kind::MessageProperties => parent == Kind::Message,
    }
}

impl Kind {
    pub fn may_derive_from(self, parent: Kind) -> (r: bool)
        ensures
            r == may_derive(self, parent),
    {
        match self {
            Kind::Database => false,
            Kind::Directory | Kind::Query | Kind::ConfigList | Kind::ConfigValues
            | Kind::ConfigPairs | Kind::IndexOpts => parent == Kind::Database,
            Kind::Threads => parent == Kind::Query,
            Kind::Thread => parent == Kind::Query || parent == Kind::Threads,
            Kind::Messages => parent == Kind::Query || parent == Kind::Message || parent
                == Kind::Messages || parent == Kind::Thread,
            Kind::Message => parent == Kind::Database || parent == Kind::Messages || parent
                == Kind::Thread || parent == Kind::Query,
            Kind::Tags => parent == Kind::Database || parent == Kind::Message || parent
                == Kind::Messages || parent == Kind::Thread,
            Kind::Filenames => parent == Kind::Directory || parent == Kind::Message,
            Kind::MessageProperties => parent == Kind::Message,
        }
    }
}

/// One native object: its kind, its address, the object it was derived from,
/// how it refers to that object, how many handles the caller holds to it, and
/// how deeply nested the sections open on it are (atomic sections on a
/// database, freezes on a message).
#[derive(Debug, Clone, Copy)]
pub struct Node {
    pub kind: Kind,
    pub native: usize,
    pub parent: Option<usize>,
    pub mode: Mode,
    pub holders: u64,
    pub depth: u64,
    pub live: bool,
}

/// A handle held by the caller: one counted reference to a registered object.
#[derive(Debug, PartialEq, Eq, Structural)]
pub struct Handle {
    pub id: usize,
}

/// Every native object created so far, in order of creation. An object's
/// number is its position, and is never reused.
pub struct Registry {
    nodes: Vec<Node>,
}

impl View for Registry {
    type V = Seq<Node>;

    closed spec fn view(&self) -> Seq<Node> {
        self.nodes@
    }
}

pub open spec fn live(s: Seq<Node>, i: int) -> bool {
    0 <= i < s.len() && s[i].live
}

pub open spec fn child_of(s: Seq<Node>, c: int, p: int) -> bool {
    0 <= c < s.len() && match s[c].parent {
        Some(q) => q as int == p,
        None => false,
    }
}

pub open spec fn has_live_child(s: Seq<Node>, p: int) -> bool {
    exists|c: int| #[trigger] child_of(s, c, p) && s[c].live
}

/// A live child keeps `p` alive.
pub open spec fn has_dependent(s: Seq<Node>, p: int) -> bool {
    exists|c: int| #[trigger] child_of(s, c, p) && s[c].live && s[c].mode != Mode::Borrowed
}

/// A live child borrows `p`.
pub open spec fn has_borrower(s: Seq<Node>, p: int) -> bool {
    exists|c: int| #[trigger] child_of(s, c, p) && s[c].live && s[c].mode == Mode::Borrowed
}

pub open spec fn parent_ok(s: Seq<Node>, i: int) -> bool {
    match s[i].parent {
        Some(p) => p < i && may_derive(s[i].kind, s[p as int].kind),
        None => s[i].kind == Kind::Database,
    }
}

/// Well-formed, except that object `x` may be alive with nothing holding it.
pub open spec fn wf_but(s: Seq<Node>, x: int) -> bool {
    &&& forall|i: int| 0 <= i < s.len() ==> #[trigger] parent_ok(s, i)
    &&& forall|i: int| 0 <= i < s.len() && !s[i].live ==> #[trigger] s[i].holders == 0
    &&& forall|i: int| #[trigger] live(s, i) ==> s[i].native != 0
    &&& forall|c: int, p: int| #[trigger] child_of(s, c, p) && s[c].live ==> live(s, p)
    &&& forall|i: int|
        #[trigger] live(s, i) && i != x && s[i].holders == 0 ==> has_dependent(s, i)
    &&& forall|i: int| #[trigger] has_borrower(s, i) ==> 0 <= i < s.len() && s[i].holders > 0
    &&& forall|i: int, j: int|
        live(s, i) && live(s, j) && i != j ==> #[trigger] s[i].native != #[trigger] s[j].native
}

/// The registry's invariant: parents come before their children and are of
/// a kind the child may be derived from; a live object's parent is alive; an
/// object that nothing holds is gone; an object with a live borrower is held
/// by a handle; live objects have distinct, non-null addresses.
pub open spec fn wf(s: Seq<Node>) -> bool {
    wf_but(s, -1)
}

pub open spec fn native_live(s: Seq<Node>, native: usize) -> bool {
    exists|i: int| #[trigger] live(s, i) && s[i].native == native
}

pub open spec fn usable(s: Seq<Node>, id: int) -> bool {
    live(s, id) && s[id].holders > 0
}

pub open spec fn kill(n: Node) -> Node {
    Node { live: false, holders: 0, ..n }
}

pub open spec fn with_holders(n: Node, holders: int) -> Node {
    Node { holders: holders as u64, ..n }
}

pub open spec fn with_depth(n: Node, depth: int) -> Node {
    Node { depth: depth as u64, ..n }
}

pub open spec fn with_mode(n: Node, mode: Mode) -> Node {
    Node { mode, ..n }
}

pub open spec fn collectible(s: Seq<Node>, i: int) -> bool {
    live(s, i) && s[i].holders == 0 && !has_live_child(s, i)
}

/// Destroys `i` if nothing holds it and no child lives, then its parent on
/// the same terms, and so on up the tree; gives the objects destroyed, each
/// before the one it was derived from.
pub open spec fn cascade(s: Seq<Node>, i: int) -> (Seq<Node>, Seq<usize>)
    decreases i,
{
    if collectible(s, i) {
        let t = s.update(i, kill(s[i]));
        match s[i].parent {
            Some(p) => if 0 <= p < i {
                let r = cascade(t, p as int);
                (r.0, seq![i as usize] + r.1)
            } else {
                (t, seq![i as usize])
            },
            None => (t, seq![i as usize]),
        }
    } else {
        (s, Seq::empty())
    }
}

pub open spec fn fresh_node(kind: Kind, native: usize, parent: Option<usize>, mode: Mode) -> Node {
    Node { kind, native, parent, mode, holders: 1, depth: 0, live: true }
}

/// The operations on the registry, for stating what holds over any sequence of them.
pub enum Op {
    Open { native: usize },
    Derive { parent: usize, mode: Mode, kind: Kind, native: usize },
    Clone { id: usize },
    Promote { id: usize },
    Release { id: usize },
    Nest { id: usize },
    Unnest { id: usize },
}

pub open spec fn open_error(s: Seq<Node>, native: usize) -> Option<RegistryError> {
    if native == 0 {
        Some(RegistryError::NullPointer)
    } else if native_live(s, native) {
        Some(RegistryError::AlreadyRegistered)
    } else {
        None
    }
}

pub open spec fn derive_error(s: Seq<Node>, parent: int, mode: Mode, kind: Kind, native: usize) -> Option<
    RegistryError,
> {
    if !usable(s, parent) {
        Some(RegistryError::Stale)
    } else if !may_derive(kind, s[parent].kind) {
        Some(RegistryError::WrongParent)
    } else if native == 0 {
        Some(RegistryError::NullPointer)
    } else if native_live(s, native) {
        Some(RegistryError::AlreadyRegistered)
    } else if mode == Mode::Owned && s[parent].holders == 1 && has_borrower(s, parent) {
        Some(RegistryError::BorrowOutstanding)
    } else {
        None
    }
}

pub open spec fn derive_result(s: Seq<Node>, parent: int, mode: Mode, kind: Kind, native: usize) -> Seq<Node> {
    let t = if mode == Mode::Owned {
        s.update(parent, with_holders(s[parent], s[parent].holders - 1))
    } else {
        s
    };
    t.push(fresh_node(kind, native, Some(parent as usize), mode))
}

pub open spec fn clone_error(s: Seq<Node>, id: int) -> Option<RegistryError> {
    if !usable(s, id) {
        Some(RegistryError::Stale)
    } else if s[id].holders == u64::MAX {
        Some(RegistryError::Overflow)
    } else {
        None
    }
}

pub open spec fn promote_error(s: Seq<Node>, id: int) -> Option<RegistryError> {
    if !usable(s, id) {
        Some(RegistryError::Stale)
    } else if s[id].mode != Mode::Borrowed {
        Some(RegistryError::NotBorrowed)
    } else {
        None
    }
}

pub open spec fn release_error(s: Seq<Node>, id: int) -> Option<RegistryError> {
    if !usable(s, id) {
        Some(RegistryError::Stale)
    } else if s[id].holders == 1 && has_borrower(s, id) {
        Some(RegistryError::BorrowOutstanding)
    } else {
        None
    }
}

pub open spec fn release_result(s: Seq<Node>, id: int) -> (Seq<Node>, Seq<usize>) {
    cascade(s.update(id, with_holders(s[id], s[id].holders - 1)), id)
}

pub open spec fn nest_error(s: Seq<Node>, id: int) -> Option<RegistryError> {
    if !usable(s, id) {
        Some(RegistryError::Stale)
    } else if s[id].depth == u64::MAX {
        Some(RegistryError::Overflow)
    } else {
        None
    }
}

pub open spec fn unnest_error(s: Seq<Node>, id: int) -> Option<RegistryError> {
    if !usable(s, id) {
        Some(RegistryError::Stale)
    } else if s[id].depth == 0 {
        Some(RegistryError::Unbalanced)
    } else {
        None
    }
}

/// The effect of one operation: the new objects and the objects destroyed,
/// or `None` where the registry refuses it (and stays as it was).
pub open spec fn apply(s: Seq<Node>, op: Op) -> Option<(Seq<Node>, Seq<usize>)> {
    match op {
        Op::Open { native } => if open_error(s, native) is None {
            Some((s.push(fresh_node(Kind::Database, native, None, Mode::Owned)), Seq::empty()))
        } else {
            None
        },
        Op::Derive { parent, mode, kind, native } => if derive_error(
            s,
            parent as int,
            mode,
            kind,
            native,
        ) is None {
            Some((derive_result(s, parent as int, mode, kind, native), Seq::empty()))
        } else {
            None
        },
        Op::Clone { id } => if clone_error(s, id as int) is None {
            Some((s.update(id as int, with_holders(s[id as int], s[id as int].holders + 1)), Seq::empty()))
        } else {
            None
        },
        Op::Promote { id } => if promote_error(s, id as int) is None {
            Some((s.update(id as int, with_mode(s[id as int], Mode::Shared)), Seq::empty()))
        } else {
            None
        },
        Op::Release { id } => if release_error(s, id as int) is None {
            Some(release_result(s, id as int))
        } else {
            None
        },
        Op::Nest { id } => if nest_error(s, id as int) is None {
            Some((s.update(id as int, with_depth(s[id as int], s[id as int].depth + 1)), Seq::empty()))
        } else {
            None
        },
        Op::Unnest { id } => if unnest_error(s, id as int) is None {
            Some((s.update(id as int, with_depth(s[id as int], s[id as int].depth - 1)), Seq::empty()))
        } else {
            None
        },
    }
}

/// Runs the operations in order, a refused one leaving the registry as it
/// was; gives the final registry and every object destroyed on the way, in order.
pub open spec fn run(s: Seq<Node>, ops: Seq<Op>) -> (Seq<Node>, Seq<usize>)
    decreases ops.len(),
{
    if ops.len() == 0 {
        (s, Seq::empty())
    } else {
        let (t, l) = match apply(s, ops[0]) {
            Some(r) => r,
            None => (s, Seq::empty()),
        };
        let r = run(t, ops.drop_first());
        (r.0, l + r.1)
    }
}

impl Registry {
    pub fn new() -> (r: Registry)
        ensures
            r@ == Seq::<Node>::empty(),
            wf(r@),
    {
        Registry { nodes: Vec::new() }
    }

    /// The object a handle refers to, as the registry records it.
    pub fn node(&self, h: &Handle) -> (r: Option<Node>)
        ensures
            r == (if 0 <= h.id < self@.len() { Some(self@[h.id as int]) } else { None::<Node> }),
    {
        if h.id < self.nodes.len() {
            Some(self.nodes[h.id])
        } else {
            None
        }
    }

    /// Whether the handle refers to a live object that still has handles.
    pub fn is_usable(&self, h: &Handle) -> (r: bool)
        ensures
            r == usable(self@, h.id as int),
    {
        h.id < self.nodes.len() && self.nodes[h.id].live && self.nodes[h.id].holders > 0
    }

    /// Whether a live object has this native address.
    pub fn is_registered(&self, native: usize) -> (r: bool)
        ensures
            r == native_live(self@, native),
    {
        let mut i: usize = 0;
        while i < self.nodes.len()
            invariant
                i <= self.nodes@.len(),
                forall|j: int| 0 <= j < i ==> !(#[trigger] live(self@, j) && self@[j].native == native),
            decreases self.nodes@.len() - i,
        {
            if self.nodes[i].live && self.nodes[i].native == native {
                assert(live(self@, i as int));
                return true;
            }
            i = i + 1;
        }
        false
    }

    /// Whether some live child of `p` has the given relation to it: any
    /// relation when `mode` is `None`.
    fn scan_children(&self, p: usize, mode: Option<Mode>) -> (r: bool)
        ensures
            r == (exists|c: int|
                #[trigger] child_of(self@, c, p as int) && self@[c].live && match mode {
                    Some(m) => self@[c].mode == m,
                    None => true,
                }),
    {
        let mut i: usize = 0;
        while i < self.nodes.len()
            invariant
                i <= self.nodes@.len(),
                forall|c: int|
                    0 <= c < i ==> !(#[trigger] child_of(self@, c, p as int) && self@[c].live
                        && match mode {
                        Some(m) => self@[c].mode == m,
                        None => true,
                    }),
            decreases self.nodes@.len() - i,
        {
            let n = self.nodes[i];
            let same_parent = match n.parent {
                Some(q) => q == p,
                None => false,
            };
            let same_mode = match mode {
                Some(m) => n.mode == m,
                None => true,
            };
            if n.live && same_parent && same_mode {
                assert(child_of(self@, i as int, p as int));
                return true;
            }
            i = i + 1;
        }
        false
    }

    fn has_live_child(&self, p: usize) -> (r: bool)
        ensures
            r == has_live_child(self@, p as int),
    {
        self.scan_children(p, None)
    }

    fn has_borrower(&self, p: usize) -> (r: bool)
        ensures
            r == has_borrower(self@, p as int),
    {
        self.scan_children(p, Some(Mode::Borrowed))
    }
}

proof fn lemma_open_wf(s: Seq<Node>, native: usize)
    requires
        wf(s),
        open_error(s, native) is None,
    ensures
        wf(s.push(fresh_node(Kind::Database, native, None, Mode::Owned))),
{
    let n = fresh_node(Kind::Database, native, None, Mode::Owned);
    let t = s.push(n);
    let l = s.len() as int;
    assert forall|c: int, p: int| 0 <= c < s.len() implies (child_of(s, c, p) == #[trigger] child_of(t, c, p)) by {
        assert(t[c] == s[c]);
    }
    assert forall|p: int| !child_of(t, l, p) by {}
    assert forall|i: int| 0 <= i < t.len() implies #[trigger] parent_ok(t, i) by {
        if i < l {
            assert(parent_ok(s, i));
            assert(t[i] == s[i]);
            if let Some(q) = s[i].parent {
                assert(t[q as int] == s[q as int]);
            }
        }
    }
    assert forall|c: int, p: int| #[trigger] child_of(t, c, p) && t[c].live implies live(t, p) by {
        assert(c != l);
        assert(child_of(s, c, p));
        assert(live(s, p));
        assert(t[p] == s[p]);
    }
    assert forall|i: int| #[trigger] live(t, i) && t[i].holders == 0 implies has_dependent(t, i) by {
        assert(i != l);
        assert(live(s, i));
        assert(t[i] == s[i]);
        assert(has_dependent(s, i));
        let c = choose|c: int| #[trigger] child_of(s, c, i) && s[c].live && s[c].mode != Mode::Borrowed;
        assert(child_of(t, c, i));
        assert(t[c] == s[c]);
    }
    assert forall|i: int| #[trigger] has_borrower(t, i) implies 0 <= i < t.len() && t[i].holders > 0 by {
        let c = choose|c: int| #[trigger] child_of(t, c, i) && t[c].live && t[c].mode == Mode::Borrowed;
        assert(c != l);
        assert(child_of(s, c, i));
        assert(t[c] == s[c]);
        assert(has_borrower(s, i));
        assert(t[i] == s[i]);
    }
    assert forall|i: int, j: int|
        live(t, i) && live(t, j) && i != j implies #[trigger] t[i].native != #[trigger] t[j].native by {
        if i == l {
            assert(live(s, j) && s[j].native == t[j].native);
        } else if j == l {
            assert(live(s, i) && s[i].native == t[i].native);
        } else {
            assert(live(s, i) && live(s, j));
        }
    }
    assert forall|i: int| #[trigger] live(t, i) implies t[i].native != 0 by {
        if i < l {
            assert(live(s, i));
        }
    }
}

impl Registry {
    /// Registers a database that the caller opened or created: its first handle.
    pub fn open(&mut self, native: usize) -> (r: Result<Handle, RegistryError>)
        requires
            wf(old(self)@),
        ensures
            wf(final(self)@),
            match r {
                Ok(h) => open_error(old(self)@, native) is None && h.id == old(self)@.len()
                    && final(self)@ == old(self)@.push(
                    fresh_node(Kind::Database, native, None, Mode::Owned),
                ),
                Err(e) => open_error(old(self)@, native) == Some(e) && final(self)@ == old(self)@,
            },
            apply(old(self)@, Op::Open { native }) == match r {
                Ok(_) => Some((final(self)@, Seq::<usize>::empty())),
                Err(_) => None::<(Seq<Node>, Seq<usize>)>,
            },
    {
        match self.open_check(native) {
            Some(e) => Err(e),
            None => Ok(self.add_root(native)),
        }
    }

    /// Why `open` would refuse the address, if it would.
    pub fn open_check(&self, native: usize) -> (r: Option<RegistryError>)
        ensures
            r == open_error(self@, native),
    {
        if native == 0 {
            Some(RegistryError::NullPointer)
        } else if self.is_registered(native) {
            Some(RegistryError::AlreadyRegistered)
        } else {
            None
        }
    }

    /// Registers a database that the caller opened or created, where
    /// `open` would accept it.
    pub fn add_root(&mut self, native: usize) -> (h: Handle)
        requires
            wf(old(self)@),
            open_error(old(self)@, native) is None,
        ensures
            wf(final(self)@),
            h.id == old(self)@.len(),
            final(self)@ == old(self)@.push(fresh_node(Kind::Database, native, None, Mode::Owned)),
    {
        proof {
            lemma_open_wf(self@, native);
        }
        let id = self.nodes.len();
        self.nodes.push(
            Node {
                kind: Kind::Database,
                native,
                parent: None,
                mode: Mode::Owned,
                holders: 1,
                depth: 0,
                live: true,
            },
        );
        Handle { id }
    }
}

/// Changing one live object's count, depth, or relation from borrowed to
/// shared keeps the registry well-formed, provided that the object is still
/// held or kept alive, and still held if it has a borrower.
proof fn lemma_update_wf(s: Seq<Node>, id: int, n: Node)
    requires
        wf(s),
        live(s, id),
        n.kind == s[id].kind,
        n.native == s[id].native,
        n.parent == s[id].parent,
        n.live,
        n.mode == s[id].mode || (s[id].mode == Mode::Borrowed && n.mode == Mode::Shared),
        has_borrower(s, id) ==> n.holders > 0,
    ensures
        wf_but(s.update(id, n), id),
        n.holders > 0 || has_dependent(s, id) ==> wf(s.update(id, n)),
{
    let t = s.update(id, n);
    assert forall|c: int, p: int| child_of(s, c, p) == #[trigger] child_of(t, c, p) by {
        if 0 <= c < s.len() && c != id {
            assert(t[c] == s[c]);
        }
    }
    assert forall|i: int| 0 <= i < t.len() implies #[trigger] parent_ok(t, i) by {
        assert(parent_ok(s, i));
        if let Some(q) = s[i].parent {
            assert(t[q as int].kind == s[q as int].kind);
        }
    }
    assert forall|c: int, p: int| #[trigger] child_of(t, c, p) && t[c].live implies live(t, p) by {
        assert(child_of(s, c, p));
        assert(live(s, p));
    }
    assert forall|i: int|
        #[trigger] live(t, i) && t[i].holders == 0 && (i != id || has_dependent(s, id)) implies has_dependent(t, i) by {
        assert(live(s, i));
        assert(has_dependent(s, i));
        let c = choose|c: int| #[trigger] child_of(s, c, i) && s[c].live && s[c].mode != Mode::Borrowed;
        assert(child_of(t, c, i));
    }
    assert forall|i: int| #[trigger] has_borrower(t, i) implies 0 <= i < t.len() && t[i].holders > 0 by {
        let c = choose|c: int| #[trigger] child_of(t, c, i) && t[c].live && t[c].mode == Mode::Borrowed;
        assert(child_of(s, c, i));
        assert(has_borrower(s, i));
    }
    assert forall|i: int, j: int|
        live(t, i) && live(t, j) && i != j implies #[trigger] t[i].native != #[trigger] t[j].native by {
        assert(live(s, i) && live(s, j));
    }
    assert forall|i: int| #[trigger] live(t, i) implies t[i].native != 0 by {
        assert(live(s, i));
    }
}

proof fn lemma_derive_wf(s: Seq<Node>, parent: int, mode: Mode, kind: Kind, native: usize)
    requires
        wf(s),
        0 <= parent <= usize::MAX,
        derive_error(s, parent, mode, kind, native) is None,
    ensures
        wf(derive_result(s, parent, mode, kind, native)),
{
    let u = if mode == Mode::Owned {
        s.update(parent, with_holders(s[parent], s[parent].holders - 1))
    } else {
        s
    };
    let n = fresh_node(kind, native, Some(parent as usize), mode);
    let t = u.push(n);
    let l = s.len() as int;
    assert(t == derive_result(s, parent, mode, kind, native));
    assert forall|c: int, p: int| 0 <= c < l implies (child_of(s, c, p) == #[trigger] child_of(t, c, p)) by {
        assert(t[c].parent == s[c].parent);
    }
    assert(child_of(t, l, parent));
    assert forall|i: int| 0 <= i < t.len() implies #[trigger] parent_ok(t, i) by {
        if i < l {
            assert(parent_ok(s, i));
            if let Some(q) = s[i].parent {
                assert(t[q as int].kind == s[q as int].kind);
            }
        } else {
            assert(t[parent].kind == s[parent].kind);
        }
    }
    assert forall|c: int, p: int| #[trigger] child_of(t, c, p) && t[c].live implies live(t, p) by {
        if c < l {
            assert(child_of(s, c, p));
            assert(live(s, p));
        }
    }
    assert forall|i: int| #[trigger] live(t, i) && t[i].holders == 0 implies has_dependent(t, i) by {
        if i == parent && mode == Mode::Owned {
            assert(child_of(t, l, i));
        } else {
            assert(i < l);
            assert(live(s, i));
            assert(has_dependent(s, i));
            let c = choose|c: int| #[trigger] child_of(s, c, i) && s[c].live && s[c].mode != Mode::Borrowed;
            assert(child_of(t, c, i));
        }
    }
    assert forall|i: int| #[trigger] has_borrower(t, i) implies 0 <= i < t.len() && t[i].holders > 0 by {
        let c = choose|c: int| #[trigger] child_of(t, c, i) && t[c].live && t[c].mode == Mode::Borrowed;
        if c == l {
            assert(i == parent);
        } else {
            assert(child_of(s, c, i));
            assert(has_borrower(s, i));
        }
    }
    assert forall|i: int, j: int|
        live(t, i) && live(t, j) && i != j implies #[trigger] t[i].native != #[trigger] t[j].native by {
        if i == l {
            assert(live(s, j));
        } else if j == l {
            assert(live(s, i));
        } else {
            assert(live(s, i) && live(s, j));
        }
    }
    assert forall|i: int| #[trigger] live(t, i) implies t[i].native != 0 by {
        if i < l {
            assert(live(s, i));
        }
    }
}

impl Registry {
    /// Registers an object derived from `parent`, with the given relation to
    /// it, and gives its first handle. With `Mode::Owned` the caller's handle
    /// of the parent passes to the new object.
    pub fn derive(&mut self, parent: &Handle, mode: Mode, kind: Kind, native: usize) -> (r: Result<
        Handle,
        RegistryError,
    >)
        requires
            wf(old(self)@),
        ensures
            wf(final(self)@),
            match r {
                Ok(h) => derive_error(old(self)@, parent.id as int, mode, kind, native) is None
                    && h.id == old(self)@.len() && final(self)@ == derive_result(
                    old(self)@,
                    parent.id as int,
                    mode,
                    kind,
                    native,
                ),
                Err(e) => derive_error(old(self)@, parent.id as int, mode, kind, native) == Some(e)
                    && final(self)@ == old(self)@,
            },
            apply(old(self)@, Op::Derive { parent: parent.id, mode, kind, native }) == match r {
                Ok(_) => Some((final(self)@, Seq::<usize>::empty())),
                Err(_) => None::<(Seq<Node>, Seq<usize>)>,
            },
    {
        match self.derive_check(parent, mode, kind, native) {
            Some(e) => Err(e),
            None => Ok(self.attach(parent, mode, kind, native)),
        }
    }

    /// Why `derive` would refuse the object, if it would.
    pub fn derive_check(&self, parent: &Handle, mode: Mode, kind: Kind, native: usize) -> (r: Option<RegistryError>)
        ensures
            r == derive_error(self@, parent.id as int, mode, kind, native),
    {
        let p = parent.id;
        if !self.is_usable(parent) {
            Some(RegistryError::Stale)
        } else if !kind.may_derive_from(self.nodes[p].kind) {
            Some(RegistryError::WrongParent)
        } else if native == 0 {
            Some(RegistryError::NullPointer)
        } else if self.is_registered(native) {
            Some(RegistryError::AlreadyRegistered)
        } else if mode == Mode::Owned && self.nodes[p].holders == 1 && self.has_borrower(p) {
            Some(RegistryError::BorrowOutstanding)
        } else {
            None
        }
    }

    /// Registers an object derived from `parent`, where `derive` would
    /// accept it.
    pub fn attach(&mut self, parent: &Handle, mode: Mode, kind: Kind, native: usize) -> (h: Handle)
        requires
            wf(old(self)@),
            derive_error(old(self)@, parent.id as int, mode, kind, native) is None,
        ensures
            wf(final(self)@),
            h.id == old(self)@.len(),
            final(self)@ == derive_result(old(self)@, parent.id as int, mode, kind, native),
    {
        let p = parent.id;
        proof {
            lemma_derive_wf(self@, p as int, mode, kind, native);
        }
        if mode == Mode::Owned {
            let mut n = self.nodes[p];
            n.holders = n.holders - 1;
            self.nodes.set(p, n);
        }
        let id = self.nodes.len();
        self.nodes.push(
            Node { kind, native, parent: Some(p), mode, holders: 1, depth: 0, live: true },
        );
        Handle { id }
    }

    /// A second handle to the same object.
    pub fn clone_handle(&mut self, h: &Handle) -> (r: Result<Handle, RegistryError>)
        requires
            wf(old(self)@),
        ensures
            wf(final(self)@),
            match r {
                Ok(c) => clone_error(old(self)@, h.id as int) is None && c.id == h.id
                    && final(self)@ == old(self)@.update(
                    h.id as int,
                    with_holders(old(self)@[h.id as int], old(self)@[h.id as int].holders + 1),
                ),
                Err(e) => clone_error(old(self)@, h.id as int) == Some(e) && final(self)@ == old(self)@,
            },
            apply(old(self)@, Op::Clone { id: h.id }) == match r {
                Ok(_) => Some((final(self)@, Seq::<usize>::empty())),
                Err(_) => None::<(Seq<Node>, Seq<usize>)>,
            },
    {
        if !self.is_usable(h) {
            return Err(RegistryError::Stale);
        }
        if self.nodes[h.id].holders == u64::MAX {
            return Err(RegistryError::Overflow);
        }
        let mut n = self.nodes[h.id];
        n.holders = n.holders + 1;
        proof {
            lemma_update_wf(self@, h.id as int, n);
        }
        self.nodes.set(h.id, n);
        Ok(Handle { id: h.id })
    }

    /// Turns a borrowed object into one that keeps its parent alive.
    pub fn promote(&mut self, h: &Handle) -> (r: Result<(), RegistryError>)
        requires
            wf(old(self)@),
        ensures
            wf(final(self)@),
            match r {
                Ok(_) => promote_error(old(self)@, h.id as int) is None && final(self)@ == old(
                    self,
                )@.update(h.id as int, with_mode(old(self)@[h.id as int], Mode::Shared)),
                Err(e) => promote_error(old(self)@, h.id as int) == Some(e) && final(self)@ == old(self)@,
            },
            apply(old(self)@, Op::Promote { id: h.id }) == match r {
                Ok(_) => Some((final(self)@, Seq::<usize>::empty())),
                Err(_) => None::<(Seq<Node>, Seq<usize>)>,
            },
    {
        if !self.is_usable(h) {
            return Err(RegistryError::Stale);
        }
        if self.nodes[h.id].mode != Mode::Borrowed {
            return Err(RegistryError::NotBorrowed);
        }
        let mut n = self.nodes[h.id];
        n.mode = Mode::Shared;
        proof {
            lemma_update_wf(self@, h.id as int, n);
        }
        self.nodes.set(h.id, n);
        Ok(())
    }

    /// Opens one more section on the object; gives the new depth.
    pub fn nest(&mut self, h: &Handle) -> (r: Result<u64, RegistryError>)
        requires
            wf(old(self)@),
        ensures
            wf(final(self)@),
            match r {
                Ok(d) => nest_error(old(self)@, h.id as int) is None && d == old(self)@[h.id as int].depth
                    + 1 && final(self)@ == old(self)@.update(
                    h.id as int,
                    with_depth(old(self)@[h.id as int], d as int),
                ),
                Err(e) => nest_error(old(self)@, h.id as int) == Some(e) && final(self)@ == old(self)@,
            },
            apply(old(self)@, Op::Nest { id: h.id }) == match r {
                Ok(_) => Some((final(self)@, Seq::<usize>::empty())),
                Err(_) => None::<(Seq<Node>, Seq<usize>)>,
            },
    {
        if !self.is_usable(h) {
            return Err(RegistryError::Stale);
        }
        if self.nodes[h.id].depth == u64::MAX {
            return Err(RegistryError::Overflow);
        }
        let mut n = self.nodes[h.id];
        n.depth = n.depth + 1;
        proof {
            lemma_update_wf(self@, h.id as int, n);
        }
        self.nodes.set(h.id, n);
        Ok(n.depth)
    }

    /// Closes the innermost section open on the object; gives the new depth.
    pub fn unnest(&mut self, h: &Handle) -> (r: Result<u64, RegistryError>)
        requires
            wf(old(self)@),
        ensures
            wf(final(self)@),
            match r {
                Ok(d) => unnest_error(old(self)@, h.id as int) is None && d + 1 == old(
                    self,
                )@[h.id as int].depth && final(self)@ == old(self)@.update(
                    h.id as int,
                    with_depth(old(self)@[h.id as int], d as int),
                ),
                Err(e) => unnest_error(old(self)@, h.id as int) == Some(e) && final(self)@ == old(self)@,
            },
            apply(old(self)@, Op::Unnest { id: h.id }) == match r {
                Ok(_) => Some((final(self)@, Seq::<usize>::empty())),
                Err(_) => None::<(Seq<Node>, Seq<usize>)>,
            },
    {
        if !self.is_usable(h) {
            return Err(RegistryError::Stale);
        }
        if self.nodes[h.id].depth == 0 {
            return Err(RegistryError::Unbalanced);
        }
        let mut n = self.nodes[h.id];
        n.depth = n.depth - 1;
        proof {
            lemma_update_wf(self@, h.id as int, n);
        }
        self.nodes.set(h.id, n);
        Ok(n.depth)
    }
}

pub open spec fn parent_index(n: Node) -> int {
    match n.parent {
        Some(p) => p as int,
        None => -1,
    }
}

/// Destroying an object that nothing holds and no child needs keeps the
/// registry well-formed, but for its parent, which may have lost the last
/// child that kept it alive.
proof fn lemma_kill_wf(s: Seq<Node>, i: int)
    requires
        wf_but(s, i),
        collectible(s, i),
    ensures
        wf_but(s.update(i, kill(s[i])), parent_index(s[i])),
{
    let t = s.update(i, kill(s[i]));
    let x = parent_index(s[i]);
    assert forall|c: int, p: int| child_of(s, c, p) == #[trigger] child_of(t, c, p) by {
        if 0 <= c < s.len() && c != i {
            assert(t[c] == s[c]);
        }
    }
    assert forall|i2: int| 0 <= i2 < t.len() implies #[trigger] parent_ok(t, i2) by {
        assert(parent_ok(s, i2));
        if let Some(q) = s[i2].parent {
            assert(t[q as int].kind == s[q as int].kind);
        }
    }
    assert forall|i2: int| 0 <= i2 < t.len() && !t[i2].live implies #[trigger] t[i2].holders == 0 by {
        if i2 != i {
            assert(!s[i2].live);
        }
    }
    assert forall|c: int, p: int| #[trigger] child_of(t, c, p) && t[c].live implies live(t, p) by {
        assert(child_of(s, c, p));
        assert(live(s, p));
        if p == i {
            assert(has_live_child(s, i));
        }
    }
    assert forall|j: int| #[trigger] live(t, j) && j != x && t[j].holders == 0 implies has_dependent(t, j) by {
        assert(live(s, j));
        assert(j != i);
        assert(has_dependent(s, j));
        let c = choose|c: int| #[trigger] child_of(s, c, j) && s[c].live && s[c].mode != Mode::Borrowed;
        assert(c != i);
        assert(child_of(t, c, j));
    }
    assert forall|j: int| #[trigger] has_borrower(t, j) implies 0 <= j < t.len() && t[j].holders > 0 by {
        let c = choose|c: int| #[trigger] child_of(t, c, j) && t[c].live && t[c].mode == Mode::Borrowed;
        assert(child_of(s, c, j));
        assert(has_borrower(s, j));
        if j == i {
            assert(has_live_child(s, i));
        }
    }
    assert forall|j: int, k: int|
        live(t, j) && live(t, k) && j != k implies #[trigger] t[j].native != #[trigger] t[k].native by {
        assert(live(s, j) && live(s, k));
    }
    assert forall|j: int| #[trigger] live(t, j) implies t[j].native != 0 by {
        assert(live(s, j));
    }
}

/// What the cascade from `i` does: it leaves a well-formed registry, destroys
/// only objects that were alive, each once, children before parents, and
/// leaves every other object as it was.
proof fn lemma_cascade(s: Seq<Node>, i: int)
    requires
        wf_but(s, i),
        0 <= i < s.len(),
        s.len() <= usize::MAX,
    ensures
        wf(cascade(s, i).0),
        cascade(s, i).0.len() == s.len(),
        forall|a: int, b: int|
            0 <= a < b < cascade(s, i).1.len() ==> cascade(s, i).1[a] > cascade(s, i).1[b],
        forall|a: int|
            0 <= a < cascade(s, i).1.len() ==> cascade(s, i).1[a] <= i && live(
                s,
                cascade(s, i).1[a] as int,
            ) && cascade(s, i).0[cascade(s, i).1[a] as int] == kill(s[cascade(s, i).1[a] as int]),
        forall|k: int|
            0 <= k < s.len() && !cascade(s, i).1.contains(k as usize) ==> cascade(s, i).0[k] == s[k],
    decreases i,
{
    if collectible(s, i) {
        let t = s.update(i, kill(s[i]));
        lemma_kill_wf(s, i);
        assert(parent_ok(s, i));
        match s[i].parent {
            Some(p) => {
                lemma_cascade(t, p as int);
                let r = cascade(t, p as int);
                let l = seq![i as usize] + r.1;
                assert(cascade(s, i) == (r.0, l));
                assert forall|a: int| 0 <= a < l.len() implies l[a] <= i && live(s, l[a] as int)
                    && r.0[l[a] as int] == kill(s[l[a] as int]) by {
                    if a > 0 {
                        let k = r.1[a - 1] as int;
                        assert(l[a] == r.1[a - 1]);
                        assert(k <= p && live(t, k) && r.0[k] == kill(t[k]));
                        assert(t[k] == s[k]);
                    } else {
                        if r.1.contains(i as usize) {
                            let b = choose|b: int| 0 <= b < r.1.len() && r.1[b] == i as usize;
                            assert(r.1[b] <= p);
                        }
                        assert(r.0[i] == t[i]);
                    }
                }
                assert forall|a: int, b: int| 0 <= a < b < l.len() implies l[a] > l[b] by {
                    if a > 0 {
                        assert(l[a] == r.1[a - 1]);
                    }
                    assert(l[b] == r.1[b - 1]);
                }
                assert forall|k: int| 0 <= k < s.len() && !l.contains(k as usize) implies r.0[k] == s[k] by {
                    if k != i {
                        if r.1.contains(k as usize) {
                            let a = choose|a: int| 0 <= a < r.1.len() && r.1[a] == k as usize;
                            assert(l[a + 1] == k as usize);
                        }
                        assert(r.0[k] == t[k]);
                    } else {
                        assert(l[0] == i as usize);
                    }
                }
            },
            None => {
                let l = seq![i as usize];
                assert(cascade(s, i) == (t, l));
                assert forall|k: int| 0 <= k < s.len() && !l.contains(k as usize) implies t[k] == s[k] by {
                    if k == i {
                        assert(l[0] == i as usize);
                    }
                }
            },
        }
    } else {
        assert forall|j: int| #[trigger] live(s, j) && j != -1 && s[j].holders == 0 implies has_dependent(s, j) by {
            if j == i {
                assert(has_live_child(s, i));
                let c = choose|c: int| #[trigger] child_of(s, c, i) && s[c].live;
                if s[c].mode == Mode::Borrowed {
                    assert(has_borrower(s, i));
                }
            }
        }
    }
}

impl Registry {
    /// Whether nothing holds object `i` and no child of it lives.
    fn collectible(&self, i: usize) -> (r: bool)
        requires
            i < self@.len(),
        ensures
            r == collectible(self@, i as int),
    {
        self.nodes[i].live && self.nodes[i].holders == 0 && !self.has_live_child(i)
    }

    /// Gives back a handle. Where that was the last reference to the object,
    /// the object is destroyed, and so is each ancestor that is left with no
    /// handle and no live child; the result lists them, each before the
    /// object it was derived from: the caller makes one native destroy call
    /// for each, in that order.
    pub fn release(&mut self, h: Handle) -> (r: Result<Vec<usize>, RegistryError>)
        requires
            wf(old(self)@),
        ensures
            wf(final(self)@),
            match r {
                Ok(l) => release_error(old(self)@, h.id as int) is None && (final(self)@, l@)
                    == release_result(old(self)@, h.id as int),
                Err(e) => release_error(old(self)@, h.id as int) == Some(e) && final(self)@ == old(self)@,
            },
            apply(old(self)@, Op::Release { id: h.id }) == match r {
                Ok(l) => Some((final(self)@, l@)),
                Err(_) => None::<(Seq<Node>, Seq<usize>)>,
            },
    {
        let id = h.id;
        if !self.is_usable(&h) {
            return Err(RegistryError::Stale);
        }
        if self.nodes[id].holders == 1 && self.has_borrower(id) {
            return Err(RegistryError::BorrowOutstanding);
        }
        let mut n = self.nodes[id];
        n.holders = n.holders - 1;
        self.nodes.set(id, n);
        let ghost s1 = self@;
        let len = self.nodes.len();
        proof {
            assert(s1 == old(self)@.update(id as int, with_holders(old(self)@[id as int], old(self)@[id as int].holders - 1)));
            lemma_update_wf(old(self)@, id as int, n);
            lemma_cascade(s1, id as int);
        }
        let mut list: Vec<usize> = Vec::new();
        let mut cur: usize = id;
        let mut going = true;
        while going
            invariant
                cur < self@.len(),
                self@.len() == s1.len(),
                cascade(s1, id as int) == (cascade(self@, cur as int).0, list@ + cascade(
                    self@,
                    cur as int,
                ).1),
                !going ==> cascade(self@, cur as int) == (self@, Seq::<usize>::empty()),
            decreases cur + if going { 1int } else { 0int },
        {
            if !self.collectible(cur) {
                going = false;
            } else {
                let ghost before = self@;
                let mut k = self.nodes[cur];
                k.live = false;
                k.holders = 0;
                self.nodes.set(cur, k);
                list.push(cur);
                proof {
                    assert(self@ == before.update(cur as int, kill(before[cur as int])));
                }
                match k.parent {
                    Some(p) => {
                        if p < cur {
                            proof {
                                let rest = cascade(self@, p as int).1;
                                assert(cascade(before, cur as int).1 == seq![cur] + rest);
                                assert(list@ + rest =~= (list@.drop_last() + (seq![cur] + rest)));
                            }
                            cur = p;
                        } else {
                            proof {
                                assert(list@ =~= list@.drop_last() + seq![cur]);
                            }
                            going = false;
                        }
                    },
                    None => {
                        proof {
                            assert(list@ =~= list@.drop_last() + seq![cur]);
                        }
                        going = false;
                    },
                }
            }
        }
        Ok(list)
    }
}


/// One accepted operation keeps the registry well-formed, never brings a
/// destroyed object back, and destroys only live objects, each once.
proof fn lemma_apply(s: Seq<Node>, op: Op)
    requires
        wf(s),
        s.len() < usize::MAX,
    ensures
        match apply(s, op) {
            Some((t, l)) => {
                &&& wf(t)
                &&& s.len() <= t.len() <= s.len() + 1
                &&& l.no_duplicates()
                &&& forall|a: int| 0 <= a < l.len() ==> live(s, l[a] as int) && !live(t, l[a] as int)
                &&& forall|k: int| 0 <= k < s.len() && !live(s, k) ==> !live(t, k)
            },
            None => true,
        },
{
    match op {
        Op::Open { native } => {
            if open_error(s, native) is None {
                lemma_open_wf(s, native);
                let t = s.push(fresh_node(Kind::Database, native, None, Mode::Owned));
                assert forall|k: int| 0 <= k < s.len() && !live(s, k) implies !live(t, k) by {
                    assert(t[k] == s[k]);
                }
            }
        },
        Op::Derive { parent, mode, kind, native } => {
            if derive_error(s, parent as int, mode, kind, native) is None {
                lemma_derive_wf(s, parent as int, mode, kind, native);
                let t = derive_result(s, parent as int, mode, kind, native);
                assert forall|k: int| 0 <= k < s.len() && !live(s, k) implies !live(t, k) by {
                    assert(t[k].live == s[k].live);
                }
            }
        },
        Op::Clone { id } => {
            if clone_error(s, id as int) is None {
                lemma_update_wf(s, id as int, with_holders(s[id as int], s[id as int].holders + 1));
            }
        },
        Op::Promote { id } => {
            if promote_error(s, id as int) is None {
                lemma_update_wf(s, id as int, with_mode(s[id as int], Mode::Shared));
            }
        },
        Op::Nest { id } => {
            if nest_error(s, id as int) is None {
                lemma_update_wf(s, id as int, with_depth(s[id as int], s[id as int].depth + 1));
            }
        },
        Op::Unnest { id } => {
            if unnest_error(s, id as int) is None {
                lemma_update_wf(s, id as int, with_depth(s[id as int], s[id as int].depth - 1));
            }
        },
        Op::Release { id } => {
            if release_error(s, id as int) is None {
                let s1 = s.update(id as int, with_holders(s[id as int], s[id as int].holders - 1));
                lemma_update_wf(s, id as int, s1[id as int]);
                lemma_cascade(s1, id as int);
                let (t, l) = cascade(s1, id as int);
                assert forall|a: int, b: int| 0 <= a < l.len() && 0 <= b < l.len() && a != b implies l[a] != l[b] by {
                    if a < b {
                        assert(l[a] > l[b]);
                    } else {
                        assert(l[b] > l[a]);
                    }
                }
                assert forall|a: int| 0 <= a < l.len() implies live(s, l[a] as int) && !live(t, l[a] as int) by {
                    assert(live(s1, l[a] as int));
                }
                assert forall|k: int| 0 <= k < s.len() && !live(s, k) implies !live(t, k) by {
                    if l.contains(k as usize) {
                        let a = choose|a: int| 0 <= a < l.len() && l[a] == k as usize;
                        assert(live(s1, l[a] as int));
                    } else {
                        assert(t[k] == s1[k]);
                    }
                }
            }
        },
    }
}

/// Changing the depth of a usable object keeps the registry well-formed.
pub(crate) proof fn lemma_depth_keeps_wf(s: Seq<Node>, id: usize, d: int)
    requires
        wf(s),
        usable(s, id as int),
        0 <= d <= u64::MAX,
    ensures
        wf(s.update(id as int, with_depth(s[id as int], d))),
{
    lemma_update_wf(s, id as int, with_depth(s[id as int], d));
}

/// Single destroy: over any sequence of operations, no object is destroyed
/// twice. Every object destroyed was alive at the start or created on the
/// way, and is gone at the end; an object gone at the start stays gone; the
/// registry stays well-formed throughout.
pub proof fn lemma_single_destroy(s: Seq<Node>, ops: Seq<Op>)
    requires
        wf(s),
        s.len() + ops.len() < usize::MAX,
    ensures
        wf(run(s, ops).0),
        s.len() <= run(s, ops).0.len() <= s.len() + ops.len(),
        run(s, ops).1.no_duplicates(),
        forall|a: int|
            0 <= a < run(s, ops).1.len() ==> !live(run(s, ops).0, run(s, ops).1[a] as int) && (
            run(s, ops).1[a] < s.len() ==> live(s, run(s, ops).1[a] as int)),
        forall|k: int| 0 <= k < s.len() && !live(s, k) ==> !live(run(s, ops).0, k),
    decreases ops.len(),
{
    if ops.len() > 0 {
        lemma_apply(s, ops[0]);
        let (t, l) = match apply(s, ops[0]) {
            Some(r) => r,
            None => (s, Seq::empty()),
        };
        let rest = ops.drop_first();
        lemma_single_destroy(t, rest);
        let (u, m) = run(t, rest);
        assert(run(s, ops) == (u, l + m));
        let all = l + m;
        assert forall|a: int| 0 <= a < l.len() implies !live(t, l[a] as int) && (l[a] as int) < t.len() by {
        }
        assert forall|a: int, b: int| 0 <= a < all.len() && 0 <= b < all.len() && a != b implies all[a] != all[b] by {
            if a < l.len() && b >= l.len() {
                assert(all[b] == m[b - l.len()]);
                if all[a] == all[b] {
                    assert(!live(t, l[a] as int));
                }
            } else if b < l.len() && a >= l.len() {
                assert(all[a] == m[a - l.len()]);
                if all[a] == all[b] {
                    assert(!live(t, l[b] as int));
                }
            } else if a >= l.len() && b >= l.len() {
                assert(all[a] == m[a - l.len()]);
                assert(all[b] == m[b - l.len()]);
            }
        }
        assert forall|a: int| 0 <= a < all.len() implies !live(u, all[a] as int) && (all[a] < s.len()
            ==> live(s, all[a] as int)) by {
            if a < l.len() {
                assert(all[a] == l[a]);
            } else {
                assert(all[a] == m[a - l.len()]);
                if all[a] < s.len() {
                    assert(live(t, all[a] as int));
                }
            }
        }
    }
}

/// Borrow containment: after any sequence of operations, every live object's
/// parent is alive; and the last handle of an object that a live child
/// borrows cannot be given back, nor passed into a new object.
pub proof fn lemma_borrow_contained(s: Seq<Node>, ops: Seq<Op>, p: usize, kind: Kind, native: usize)
    requires
        wf(s),
        s.len() + ops.len() < usize::MAX,
    ensures
        forall|c: int, q: int|
            #[trigger] child_of(run(s, ops).0, c, q) && run(s, ops).0[c].live ==> live(run(s, ops).0, q),
        usable(run(s, ops).0, p as int) && run(s, ops).0[p as int].holders == 1 && has_borrower(run(s, ops).0, p as int)
            ==> apply(run(s, ops).0, Op::Release { id: p }) is None && apply(
            run(s, ops).0,
            Op::Derive { parent: p, mode: Mode::Owned, kind, native },
        ) is None,
{
    lemma_single_destroy(s, ops);
}


/// No child of an object is older than the object itself.
proof fn lemma_no_older_child(s: Seq<Node>, c: int, p: int)
    requires
        wf(s),
        child_of(s, c, p),
    ensures
        p < c,
{
    assert(parent_ok(s, c));
}

/// Shared survival: open a database, derive a message that shares it, and
/// give back the database's handle: the database stays alive. Give back the
/// message's handle too: the message is destroyed, then the database.
pub proof fn lemma_shared_survival(s: Seq<Node>, db: usize, msg: usize)
    requires
        wf(s),
        s.len() + 4 < usize::MAX,
        db != 0,
        msg != 0,
        db != msg,
        !native_live(s, db),
        !native_live(s, msg),
    ensures
        ({
            let d = s.len() as usize;
            let m = (s.len() + 1) as usize;
            let ops = seq![
                Op::Open { native: db },
                Op::Derive { parent: d, mode: Mode::Shared, kind: Kind::Message, native: msg },
                Op::Release { id: d },
            ];
            &&& live(run(s, ops).0, d as int)
            &&& run(s, ops).1.len() == 0
            &&& run(s, ops.push(Op::Release { id: m })).1 == seq![m, d]
            &&& !live(run(s, ops.push(Op::Release { id: m })).0, d as int)
        }),
{
    let d = s.len() as usize;
    let m = (s.len() + 1) as usize;
    let ops = seq![
        Op::Open { native: db },
        Op::Derive { parent: d, mode: Mode::Shared, kind: Kind::Message, native: msg },
        Op::Release { id: d },
    ];
    let ops4 = ops.push(Op::Release { id: m });
    // open
    assert(open_error(s, db) is None);
    let s1 = s.push(fresh_node(Kind::Database, db, None, Mode::Owned));
    assert(apply(s, ops[0]) == Some((s1, Seq::<usize>::empty())));
    lemma_open_wf(s, db);
    // derive
    assert(!native_live(s1, msg)) by {
        if native_live(s1, msg) {
            let i = choose|i: int| #[trigger] live(s1, i) && s1[i].native == msg;
            if i < s.len() {
                assert(live(s, i));
            }
        }
    }
    assert(derive_error(s1, d as int, Mode::Shared, Kind::Message, msg) is None);
    let s2 = s1.push(fresh_node(Kind::Message, msg, Some(d), Mode::Shared));
    assert(derive_result(s1, d as int, Mode::Shared, Kind::Message, msg) == s2);
    assert(apply(s1, ops[1]) == Some((s2, Seq::<usize>::empty())));
    lemma_derive_wf(s1, d as int, Mode::Shared, Kind::Message, msg);
    // release the database's handle
    assert(child_of(s2, m as int, d as int));
    assert(!has_borrower(s2, d as int)) by {
        if has_borrower(s2, d as int) {
            let c = choose|c: int| #[trigger] child_of(s2, c, d as int) && s2[c].live && s2[c].mode == Mode::Borrowed;
            lemma_no_older_child(s2, c, d as int);
        }
    }
    assert(release_error(s2, d as int) is None);
    let s2a = s2.update(d as int, with_holders(s2[d as int], 0));
    assert(child_of(s2a, m as int, d as int));
    assert(has_live_child(s2a, d as int));
    assert(cascade(s2a, d as int) == (s2a, Seq::<usize>::empty()));
    assert(apply(s2, ops[2]) == Some((s2a, Seq::<usize>::empty())));
    // run the three
    let r3 = ops.drop_first().drop_first();
    assert(r3 =~= seq![Op::Release { id: d }]);
    assert(r3.drop_first() =~= Seq::<Op>::empty());
    assert(run(s2a, r3.drop_first()) == (s2a, Seq::<usize>::empty()));
    assert(Seq::<usize>::empty() + Seq::<usize>::empty() =~= Seq::<usize>::empty());
    assert(run(s2, r3) == (s2a, Seq::<usize>::empty()));
    assert(run(s1, ops.drop_first()) == (s2a, Seq::<usize>::empty()));
    assert(run(s, ops) == (s2a, Seq::<usize>::empty()));
    // release the message's handle
    lemma_update_wf(s2, d as int, s2a[d as int]);
    assert(wf(s2a));
    assert(!has_borrower(s2a, m as int)) by {
        if has_borrower(s2a, m as int) {
            let c = choose|c: int| #[trigger] child_of(s2a, c, m as int) && s2a[c].live && s2a[c].mode == Mode::Borrowed;
            lemma_no_older_child(s2a, c, m as int);
        }
    }
    assert(release_error(s2a, m as int) is None);
    let s3 = s2a.update(m as int, with_holders(s2a[m as int], 0));
    assert(!has_live_child(s3, m as int)) by {
        if has_live_child(s3, m as int) {
            let c = choose|c: int| #[trigger] child_of(s3, c, m as int) && s3[c].live;
            assert(child_of(s2a, c, m as int));
            lemma_no_older_child(s2a, c, m as int);
        }
    }
    let s4 = s3.update(m as int, kill(s3[m as int]));
    assert(!has_live_child(s4, d as int)) by {
        if has_live_child(s4, d as int) {
            let c = choose|c: int| #[trigger] child_of(s4, c, d as int) && s4[c].live;
            assert(child_of(s2a, c, d as int));
            lemma_no_older_child(s2a, c, d as int);
            if c < m {
                assert(s2a[c].parent == s[c].parent);
                assert(child_of(s, c, d as int));
                assert(parent_ok(s, c));
            }
        }
    }
    let s5 = s4.update(d as int, kill(s4[d as int]));
    assert(s4[d as int].parent == None::<usize>);
    assert(cascade(s4, d as int) == (s5, seq![d]));
    assert(cascade(s3, m as int) == (s5, seq![m] + seq![d]));
    assert(seq![m] + seq![d] =~= seq![m, d]);
    assert(apply(s2a, ops4[3]) == Some((s5, seq![m, d])));
    let r4 = ops4.drop_first().drop_first().drop_first();
    assert(r4 =~= seq![Op::Release { id: m }]);
    assert(r4.drop_first() =~= Seq::<Op>::empty());
    assert(run(s5, r4.drop_first()) == (s5, Seq::<usize>::empty()));
    assert(run(s2a, r4) == (s5, seq![m, d] + Seq::<usize>::empty()));
    assert(seq![m, d] + Seq::<usize>::empty() =~= seq![m, d]);
    assert(ops4.drop_first().drop_first()[0] == ops[2]);
    assert(run(s2, ops4.drop_first().drop_first()) == (s5, seq![m, d]));
    assert(ops4.drop_first()[0] == ops[1]);
    assert(run(s1, ops4.drop_first()) == (s5, seq![m, d]));
    assert(ops4[0] == ops[0]);
    assert(run(s, ops4) == (s5, seq![m, d]));
}

proof fn lemma_none_live_from(s: Seq<Node>, k: int)
    requires
        wf(s),
        0 <= k,
        forall|i: int| 0 <= i < s.len() ==> #[trigger] s[i].holders == 0,
    ensures
        forall|j: int| k <= j < s.len() ==> !#[trigger] live(s, j),
    decreases s.len() - k,
{
    if k < s.len() {
        lemma_none_live_from(s, k + 1);
        if live(s, k) {
            assert(s[k].holders == 0);
            let c = choose|c: int| #[trigger] child_of(s, c, k) && s[c].live && s[c].mode != Mode::Borrowed;
            lemma_no_older_child(s, c, k);
            assert(live(s, c));
        }
    }
}

/// No leaks: once every handle has been given back, every object has been
/// destroyed.
pub proof fn lemma_all_released_all_destroyed(s: Seq<Node>)
    requires
        wf(s),
        forall|i: int| 0 <= i < s.len() ==> #[trigger] s[i].holders == 0,
    ensures
        forall|i: int| 0 <= i < s.len() ==> !#[trigger] s[i].live,
{
    lemma_none_live_from(s, 0);
    assert forall|i: int| 0 <= i < s.len() implies !#[trigger] s[i].live by {
        assert(!live(s, i));
    }
}

} // verus!
