//! The globals that the compositor advertises, and the look-up among them.

use vstd::prelude::*;
use crate::connection::Connection;
use crate::error::{ProtocolUnsupported, TransportError};

verus! {

/// One global singleton of the compositor.
#[derive(Debug)]
pub struct Global {
    /// The number under which the compositor announced it.
    pub name: u32,
    /// The name of its interface.
    pub interface: String,
    /// The highest version of the interface that the compositor offers.
    pub version: u32,
}

/// A global, with the interface's name as a sequence of characters.
pub struct GlobalView {
    pub name: u32,
    pub interface: Seq<char>,
    pub version: u32,
}

impl View for Global {
    type V = GlobalView;

    open spec fn view(&self) -> GlobalView {
        GlobalView { name: self.name, interface: self.interface@, version: self.version }
    }
}

/// A message that arrives while the client waits for the list of globals.
#[derive(Debug)]
pub enum RegistryMessage {
    /// The compositor announces a global.
    Global(Global),
    /// Anything else, by its opcode. It is ignored.
    Unrecognized(u32),
}

/// A registry message, with the text as a sequence of characters.
pub enum RegistryMessageView {
    Global(GlobalView),
    Unrecognized(u32),
}

impl View for RegistryMessage {
    type V = RegistryMessageView;

    open spec fn view(&self) -> RegistryMessageView {
        match self {
            RegistryMessage::Global(g) => RegistryMessageView::Global(g@),
            RegistryMessage::Unrecognized(opcode) => RegistryMessageView::Unrecognized(*opcode),
        }
    }
}

/// The messages of a list, each by its view.
pub open spec fn message_views(messages: Seq<RegistryMessage>) -> Seq<RegistryMessageView> {
    Seq::new(messages.len(), |i: int| messages[i]@)
}

/// The globals of a list, each by its view.
pub open spec fn global_views(globals: Seq<Global>) -> Seq<GlobalView> {
    Seq::new(globals.len(), |i: int| globals[i]@)
}

/// The globals that a run of messages announces, in the order in which they
/// came. Messages of any other kind leave no trace.
pub open spec fn announced(messages: Seq<RegistryMessageView>) -> Seq<GlobalView>
    decreases messages.len(),
{
    if messages.len() == 0 {
        Seq::empty()
    } else {
        let earlier = announced(messages.drop_last());
        match messages.last() {
            RegistryMessageView::Global(g) => earlier.push(g),
            RegistryMessageView::Unrecognized(_) => earlier,
        }
    }
}

/// The global at `i` is the first one in the list with this interface.
pub open spec fn first_offer(globals: Seq<GlobalView>, interface: Seq<char>, i: int) -> bool {
    &&& 0 <= i < globals.len()
    &&& globals[i].interface == interface
    &&& forall|j: int| 0 <= j < i ==> (#[trigger] globals[j]).interface != interface
}

/// What a look-up answers. The first global with the interface decides: it
/// is bound in the version asked for if it offers at least that version.
/// An interface that is not in the list, or only in a lower version, is
/// unsupported.
pub open spec fn resolve(globals: Seq<GlobalView>, interface: Seq<char>, version: u32) -> Result<
    Binding,
    ProtocolUnsupported,
> {
    if exists|i: int| first_offer(globals, interface, i) {
        let i = choose|i: int| first_offer(globals, interface, i);
        if version <= globals[i].version {
            Ok(Binding { name: globals[i].name, version })
        } else {
            Err(ProtocolUnsupported)
        }
    } else {
        Err(ProtocolUnsupported)
    }
}

/// A global that the client has decided to bind: its number, and the version
/// in which it is bound.
#[derive(Clone, Copy, Debug, PartialEq, Eq, Structural)]
pub struct Binding {
    pub name: u32,
    pub version: u32,
}

/// The list of globals as it stood when the first round-trip ended. It does
/// not change afterwards.
#[derive(Debug)]
pub struct GlobalManager {
    globals: Vec<Global>,
}

impl View for GlobalManager {
    type V = Seq<GlobalView>;

    closed spec fn view(&self) -> Seq<GlobalView> {
        global_views(self.globals@)
    }
}

impl GlobalManager {
    /// Builds the list of globals from the messages that the first
    /// round-trip brought, in their order. Messages that announce no global
    /// are ignored. On a connection that has dropped there is no list.
    pub fn synchronous_roundtrip(conn: &Connection, replies: &Vec<RegistryMessage>) -> (r: Result<
        GlobalManager,
        TransportError,
    >)
        ensures
            r.is_ok() == conn@.open,
            r.is_ok() ==> r.unwrap()@ == announced(message_views(replies@)),
    {
        if !conn.is_open() {
            return Err(TransportError);
        }
        let mut globals: Vec<Global> = Vec::new();
        let ghost all = message_views(replies@);
        assert(all.take(0) =~= Seq::<RegistryMessageView>::empty());
        assert(global_views(globals@) =~= Seq::<GlobalView>::empty());
        let mut i: usize = 0;
        while i < replies.len()
            invariant
                i <= replies.len(),
                all == message_views(replies@),
                global_views(globals@) == announced(all.take(i as int)),
            decreases replies.len() - i,
        {
            let ghost before = globals@;
            assert(all.take(i + 1).drop_last() =~= all.take(i as int));
            assert(all.take(i + 1).last() == replies@[i as int]@);
            match &replies[i] {
                RegistryMessage::Global(g) => {
                    let copy = Global {
                        name: g.name,
                        interface: g.interface.clone(),
                        version: g.version,
                    };
                    assert(copy@ == g@);
                    globals.push(copy);
                    assert(global_views(globals@) =~= global_views(before).push(g@));
                },
                RegistryMessage::Unrecognized(_) => {},
            }
            i += 1;
        }
        assert(all.take(replies.len() as int) =~= all);
        Ok(GlobalManager { globals })
    }

    /// The number of globals in the list.
    pub fn len(&self) -> (n: usize)
        ensures
            n == self@.len(),
    {
        self.globals.len()
    }

    /// Decides which global to bind for `interface` in `version`. The list
    /// alone decides; nothing is sent.
    pub fn instantiate_exact(&self, interface: &str, version: u32) -> (r: Result<
        Binding,
        ProtocolUnsupported,
    >)
        ensures
            r == resolve(self@, interface@, version),
    {
        let wanted: String = interface.to_owned();
        let mut i: usize = 0;
        while i < self.globals.len()
            invariant
                i <= self.globals.len(),
                wanted@ == interface@,
                forall|j: int| 0 <= j < i ==> (#[trigger] self@[j]).interface != interface@,
            decreases self.globals.len() - i,
        {
            let global = &self.globals[i];
            assert(self@[i as int] == global@);
            if global.interface == wanted {
                assert(first_offer(self@, interface@, i as int));
                let ghost k = choose|k: int| first_offer(self@, interface@, k);
                assert(k == i) by {
                    if k < i {
                        assert(self@[k].interface != interface@);
                    }
                    if k > i {
                        assert(self@[i as int].interface != interface@);
                    }
                }
                if version <= global.version {
                    return Ok(Binding { name: global.name, version });
                } else {
                    return Err(ProtocolUnsupported);
                }
            }
            i += 1;
        }
        Err(ProtocolUnsupported)
    }
}

} // verus!
