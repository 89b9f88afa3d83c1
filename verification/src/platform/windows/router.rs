//! The window message router: binds a window's data at creation and decides
//! what becomes of every message that the platform delivers.

use super::message::{decode, spec_decode, Message};
use super::{InitData, WindowData};
use vstd::prelude::*;

verus! {

/// What the callback does with a message, and so what it returns.
#[derive(Debug, Clone, Copy, PartialEq, Eq, Structural)]
pub enum RouterAction {
    /// Refuse: the callback returns the failure sentinel, which aborts a
    /// creation.
    Reject,
    /// Hand the message to default processing and return its result.
    Default,
    /// Validate the update region, then hand the message to default
    /// processing and return its result.
    ValidateThenDefault,
    /// Post the quit signal and report the message as handled.
    PostQuit,
}

/// The value by which the callback refuses a message.
pub const REJECTED: isize = -1;

/// The value by which the callback reports a message as handled.
pub const HANDLED: isize = 0;

impl RouterAction {
    /// The callback's result, given what default processing returned.
    pub open spec fn spec_result(self, default_result: isize) -> isize {
        match self {
            RouterAction::Reject => REJECTED,
            RouterAction::PostQuit => HANDLED,
            RouterAction::Default => default_result,
            RouterAction::ValidateThenDefault => default_result,
        }
    }

    /// Whether the action reads the message: paint and destroy handling.
    pub open spec fn interprets(self) -> bool {
        self == RouterAction::ValidateThenDefault || self == RouterAction::PostQuit
    }

    /// Whether the platform's default processing is to be run.
    pub open spec fn spec_runs_default(self) -> bool {
        self == RouterAction::Default || self == RouterAction::ValidateThenDefault
    }

    /// The callback's result, given what default processing returned. The
    /// argument is not looked at where default processing is not run.
    #[verifier::when_used_as_spec(spec_result)]
    pub fn result(self, default_result: isize) -> (result: isize)
        ensures
            result == self.spec_result(default_result),
    {
        match self {
            RouterAction::Reject => REJECTED,
            RouterAction::PostQuit => HANDLED,
            RouterAction::Default => default_result,
            RouterAction::ValidateThenDefault => default_result,
        }
    }

    /// Whether the platform's default processing is to be run.
    #[verifier::when_used_as_spec(spec_runs_default)]
    pub fn runs_default(self) -> (runs: bool)
        ensures
            runs == self.spec_runs_default(),
    {
        match self {
            RouterAction::Default => true,
            RouterAction::ValidateThenDefault => true,
            _ => false,
        }
    }
}

/// Whether the message binds a data block to the window: it is the
/// pre-creation message, for a window that is not null and has none yet.
pub open spec fn binds(bound: Seq<isize>, window: isize, id: u32) -> bool {
    spec_decode(id) == Message::NcCreate && !bound.contains(window) && window != 0
}

/// What the router does with a message for `window`, where `bound` lists the
/// windows that have a data block.
pub open spec fn route(bound: Seq<isize>, window: isize, id: u32) -> RouterAction {
    match spec_decode(id) {
        Message::NcCreate => if bound.contains(window) || window != 0 {
            RouterAction::Default
        } else {
            RouterAction::Reject
        },
        Message::Create => RouterAction::Reject,
        Message::Paint => if bound.contains(window) {
            RouterAction::ValidateThenDefault
        } else {
            RouterAction::Default
        },
        Message::Destroy => if bound.contains(window) {
            RouterAction::PostQuit
        } else {
            RouterAction::Default
        },
        Message::Other(_) => RouterAction::Default,
    }
}

/// The windows that have a data block after the message.
pub open spec fn next(bound: Seq<isize>, window: isize, id: u32) -> Seq<isize> {
    if binds(bound, window, id) {
        bound.push(window)
    } else {
        bound
    }
}

/// One bound window with its data block.
struct Entry {
    handle: isize,
    data: WindowData,
}

/// The association of windows with their data blocks, in the order in which
/// they were bound. No window has two blocks, and the null handle has none.
pub struct WindowTable {
    entries: Vec<Entry>,
}

impl WindowTable {
    /// The bound windows, oldest first.
    pub closed spec fn bound(&self) -> Seq<isize> {
        Seq::new(self.entries@.len(), |i: int| self.entries@[i].handle)
    }

    /// The number of data blocks that the table holds.
    pub open spec fn blocks(&self) -> nat {
        self.bound().len()
    }

    /// What holds of every table: no window is bound twice, and the null
    /// handle is not bound.
    #[verifier::type_invariant]
    pub open spec fn wf(&self) -> bool {
        self.bound().no_duplicates() && !self.bound().contains(0)
    }

    /// A table without windows.
    pub fn new() -> (table: WindowTable)
        ensures
            table.bound() == Seq::<isize>::empty(),
            table.wf(),
    {
        let table = WindowTable { entries: Vec::new() };
        assert(table.bound() =~= Seq::<isize>::empty());
        table
    }

    /// The number of data blocks that the table holds.
    pub fn len(&self) -> (n: usize)
        ensures
            n == self.blocks(),
            self.wf(),
    {
        proof {
            use_type_invariant(self);
        }
        self.entries.len()
    }

    /// Whether the window has a data block.
    pub fn is_bound(&self, window: isize) -> (found: bool)
        ensures
            found == self.bound().contains(window),
            self.wf(),
    {
        proof {
            use_type_invariant(self);
        }
        let mut i: usize = 0;
        while i < self.entries.len()
            invariant
                i <= self.entries.len(),
                self.wf(),
                forall|j: int| 0 <= j < i ==> self.bound()[j] != window,
            decreases self.entries.len() - i,
        {
            if self.entries[i].handle == window {
                assert(self.bound()[i as int] == window);
                return true;
            }
            i += 1;
        }
        false
    }

    /// The data block of the window, if it has one.
    pub fn data(&self, window: isize) -> (data: Option<WindowData>)
        ensures
            data is Some <==> self.bound().contains(window),
    {
        let mut i: usize = 0;
        while i < self.entries.len()
            invariant
                i <= self.entries.len(),
                forall|j: int| 0 <= j < i ==> self.bound()[j] != window,
            decreases self.entries.len() - i,
        {
            if self.entries[i].handle == window {
                assert(self.bound()[i as int] == window);
                return Some(self.entries[i].data);
            }
            i += 1;
        }
        None
    }

    /// Stores the data block of a window that has none.
    fn bind(&mut self, window: isize, data: WindowData)
        requires
            window != 0,
            !old(self).bound().contains(window),
        ensures
            final(self).bound() == old(self).bound().push(window),
    {
        proof {
            use_type_invariant(&*self);
        }
        let ghost before = self.bound();
        let mut taken = WindowTable::new();
        core::mem::swap(self, &mut taken);
        let mut entries = taken.entries;
        entries.push(Entry { handle: window, data });
        proof {
            let after = Seq::new(entries@.len(), |i: int| entries@[i].handle);
            assert(after =~= before.push(window));
            lemma_push_fresh(before, window);
        }
        *self = WindowTable { entries };
    }
}

/// A list without repeats and without the null handle stays so when a
/// window that it lacks is added.
proof fn lemma_push_fresh(bound: Seq<isize>, window: isize)
    requires
        bound.no_duplicates(),
        !bound.contains(0),
        !bound.contains(window),
        window != 0,
    ensures
        bound.push(window).no_duplicates(),
        !bound.push(window).contains(0),
{
    let after = bound.push(window);
    assert forall|i: int, j: int| 0 <= i < after.len() && 0 <= j < after.len() && i
        != j implies after[i] != after[j] by {
        if i < bound.len() {
            assert(bound.contains(bound[i]));
        }
        if j < bound.len() {
            assert(bound.contains(bound[j]));
        }
    }
    if after.contains(0) {
        let k = choose|k: int| 0 <= k < after.len() && after[k] == 0;
        assert(bound.contains(bound[k]));
    }
}

/// The window callback. It binds the window's data block on the
/// pre-creation message, refuses the legacy creation message, leaves the
/// messages of a window without data to default processing, and for a bound
/// window validates on a paint request and posts the quit signal on the
/// destroy notification. `initdata` is the record of the creation call in
/// progress; only a binding writes to it.
pub fn public_window_callback(
    table: &mut WindowTable,
    initdata: &mut InitData,
    window: isize,
    msg: u32,
) -> (action: RouterAction)
    ensures
        action == route(old(table).bound(), window, msg),
        final(table).bound() == next(old(table).bound(), window, msg),
        final(table).wf(),
        binds(old(table).bound(), window, msg) ==> final(initdata).spec_window() is Some
            && final(initdata).spec_window()->0.spec_handle() == window,
        !binds(old(table).bound(), window, msg) ==> *final(initdata) == *old(initdata),
{
    let bound = table.is_bound(window);
    let action = match decode(msg) {
        Message::NcCreate => {
            if bound {
                RouterAction::Default
            } else {
                match initdata.handle_create(window) {
                    None => RouterAction::Reject,
                    Some(data) => {
                        table.bind(window, data);
                        RouterAction::Default
                    },
                }
            }
        },
        Message::Create => RouterAction::Reject,
        Message::Paint => if bound {
            RouterAction::ValidateThenDefault
        } else {
            RouterAction::Default
        },
        Message::Destroy => if bound {
            RouterAction::PostQuit
        } else {
            RouterAction::Default
        },
        Message::Other(_) => RouterAction::Default,
    };
    proof {
        use_type_invariant(&*table);
    }
    action
}

} // verus!
