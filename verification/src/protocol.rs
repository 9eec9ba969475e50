//! What the library asks of the external services, and what they answer.

use vstd::prelude::*;

verus! {

/// The status code that stands for a missing directory handle.
pub const FAULT: i32 = -14;

/// A reference to one handler capability table. The table is owned outside the
/// library and must outlive every registration that names it.
#[derive(Clone, Copy, Debug, PartialEq, Eq, Structural)]
pub struct HandlerBinding {
    pub table: usize,
}

/// The class and the parent under which directory entries are published.
#[derive(Clone, Copy, Debug, PartialEq, Eq, Structural)]
pub struct Directory {
    pub class: usize,
    pub parent: usize,
}

/// The answer of an external service to one action.
///
/// `code` is zero on success and the service's status code otherwise. `value`
/// is the base identifier of a granted range and of no meaning elsewhere.
#[derive(Clone, Copy, Debug, PartialEq, Eq, Structural)]
pub struct Reply {
    pub code: i32,
    pub value: u32,
}

impl Reply {
    /// The service reported success.
    pub open spec fn accepted(self) -> bool {
        self.code == 0
    }

    /// The answer of a service that reports a status code and nothing else.
    pub fn status(code: i32) -> (reply: Reply)
        ensures
            reply == (Reply { code, value: 0 }),
    {
        Reply { code, value: 0 }
    }

    /// The answer of the identifier allocator: its status code and the base of
    /// the range it granted.
    pub fn range(code: i32, base: u32) -> (reply: Reply)
        ensures
            reply == (Reply { code, value: base }),
    {
        Reply { code, value: base }
    }

    /// The answer of the directory service, which hands back a handle or none.
    pub fn handle(present: bool) -> (reply: Reply)
        ensures
            reply == (Reply { code: if present { 0 } else { FAULT }, value: 0 }),
            reply.accepted() <==> present,
    {
        if present {
            Reply { code: 0, value: 0 }
        } else {
            Reply { code: FAULT, value: 0 }
        }
    }

    /// The answer of a service call that returns nothing.
    pub fn done() -> (reply: Reply)
        ensures
            reply == (Reply { code: 0, value: 0 }),
    {
        Reply { code: 0, value: 0 }
    }
}

/// One call that the caller makes on behalf of the library.
#[derive(Debug, PartialEq, Eq)]
pub enum Action {
    /// Ask the identifier allocator for `count` identifiers, starting the
    /// search at `first`, under the terminated name `name`.
    AcquireRange { first: u32, count: u32, name: Vec<u8> },
    /// Initialize the device record of `slot` from the capability table.
    InitSlot { slot: usize, table: HandlerBinding },
    /// Bind the record of `slot` to its owner and enter it into the
    /// active-device registry under `identifier`.
    PublishSlot { slot: usize, identifier: u32 },
    /// Create the directory entry `name` for `identifier`.
    CreateNode { directory: Option<Directory>, identifier: u32, name: Vec<u8> },
    /// Destroy the directory entries of the identifiers `base .. base + count`.
    DestroyNodes { directory: Option<Directory>, base: u32, count: u32 },
    /// Take the record of `slot` out of the active-device registry.
    ReleaseSlot { slot: usize },
    /// Hand the identifiers `base .. base + count` back to the allocator.
    ReleaseRange { base: u32, count: u32 },
}

/// An [`Action`] as a mathematical value.
pub enum ActionView {
    AcquireRange { first: u32, count: u32, name: Seq<u8> },
    InitSlot { slot: usize, table: HandlerBinding },
    PublishSlot { slot: usize, identifier: u32 },
    CreateNode { directory: Option<Directory>, identifier: u32, name: Seq<u8> },
    DestroyNodes { directory: Option<Directory>, base: u32, count: u32 },
    ReleaseSlot { slot: usize },
    ReleaseRange { base: u32, count: u32 },
}

impl View for Action {
    type V = ActionView;

    open spec fn view(&self) -> ActionView {
        match *self {
            Action::AcquireRange { first, count, name } => ActionView::AcquireRange {
                first,
                count,
                name: name@,
            },
            Action::InitSlot { slot, table } => ActionView::InitSlot { slot, table },
            Action::PublishSlot { slot, identifier } => ActionView::PublishSlot {
                slot,
                identifier,
            },
            Action::CreateNode { directory, identifier, name } => ActionView::CreateNode {
                directory,
                identifier,
                name: name@,
            },
            Action::DestroyNodes { directory, base, count } => ActionView::DestroyNodes {
                directory,
                base,
                count,
            },
            Action::ReleaseSlot { slot } => ActionView::ReleaseSlot { slot },
            Action::ReleaseRange { base, count } => ActionView::ReleaseRange { base, count },
        }
    }
}

} // verus!
