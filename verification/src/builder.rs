//! The configuration builder: what is to be registered, before anything is.

use crate::error::Error;
use crate::name::{terminated, CStr};
use crate::protocol::{Directory, HandlerBinding};
use crate::registration::{Build, Machine, Outcome, Progress};

use std::ops::Range;
use vstd::prelude::*;

verus! {

/// A configuration as a mathematical value.
pub struct Config {
    /// The terminated name of the block.
    pub name: Seq<u8>,
    /// Where the capacity window starts: the hint given to the allocator.
    pub first: u16,
    /// The size of the capacity window.
    pub capacity: nat,
    /// The handlers bound so far; the position of a handler is its slot.
    pub tables: Seq<HandlerBinding>,
    /// Where directory entries are published, if anywhere in particular.
    pub directory: Option<Directory>,
}

impl Config {
    /// The name is terminated and the handlers fit the capacity window.
    pub open spec fn wf(self) -> bool {
        &&& terminated(self.name)
        &&& self.tables.len() <= self.capacity
        &&& self.capacity <= u16::MAX
    }
}

/// The number of identifiers in `minors`: none where the range is empty or reversed.
pub open spec fn window_len(minors: Range<u16>) -> nat {
    if minors.start < minors.end {
        (minors.end - minors.start) as nat
    } else {
        0
    }
}

/// Accumulates a configuration. No external service is called until
/// [`Builder::build`], and none by the builder itself.
#[derive(Debug)]
pub struct Builder {
    name: CStr,
    first: u16,
    capacity: u16,
    tables: Vec<HandlerBinding>,
    directory: Option<Directory>,
}

impl View for Builder {
    type V = Config;

    closed spec fn view(&self) -> Config {
        Config {
            name: self.name@,
            first: self.first,
            capacity: self.capacity as nat,
            tables: self.tables@,
            directory: self.directory,
        }
    }
}

/// Starts an empty configuration named `name` whose capacity window is `minors`.
pub fn builder(name: CStr, minors: Range<u16>) -> (result: Result<Builder, Error>)
    ensures
        result matches Ok(b) && b@ == (Config {
            name: name@,
            first: minors.start,
            capacity: window_len(minors),
            tables: Seq::empty(),
            directory: None,
        }) && b@.wf(),
{
    proof {
        use_type_invariant(&name);
    }
    let capacity: u16 = if minors.start < minors.end {
        minors.end - minors.start
    } else {
        0
    };
    Ok(Builder { name, first: minors.start, capacity, tables: Vec::new(), directory: None })
}

impl Builder {
    #[verifier::type_invariant]
    pub open spec fn well_formed(self) -> bool {
        self@.wf()
    }

    /// The terminated name of the block.
    pub fn name(&self) -> (name: &CStr)
        ensures
            name@ == self@.name,
            terminated(self@.name),
    {
        proof {
            use_type_invariant(self);
        }
        &self.name
    }

    /// Where the capacity window starts.
    pub fn first(&self) -> (first: u16)
        ensures
            first == self@.first,
    {
        self.first
    }

    /// The size of the capacity window.
    pub fn capacity(&self) -> (capacity: u16)
        ensures
            capacity == self@.capacity,
    {
        self.capacity
    }

    /// The number of handlers bound so far, which never exceeds the capacity.
    pub fn handler_count(&self) -> (count: usize)
        ensures
            count == self@.tables.len(),
            count <= self@.capacity,
    {
        proof {
            use_type_invariant(self);
        }
        self.tables.len()
    }

    /// The handler bound to the slot `index`, if one is.
    pub fn handler(&self, index: usize) -> (table: Option<HandlerBinding>)
        ensures
            table == if index < self@.tables.len() {
                Some(self@.tables[index as int])
            } else {
                None
            },
    {
        if index < self.tables.len() {
            Some(self.tables[index])
        } else {
            None
        }
    }

    /// Where directory entries are to be published, if that was configured.
    pub fn directory(&self) -> (directory: Option<Directory>)
        ensures
            directory == self@.directory,
    {
        self.directory
    }

    /// Whether one more handler fits the capacity window.
    pub fn has_room(&self) -> (room: bool)
        ensures
            room <==> self@.tables.len() < self@.capacity,
    {
        self.tables.len() < self.capacity as usize
    }

    /// Binds `table` to the next slot. Fails, and calls nothing, where the
    /// capacity window is already full.
    pub fn register_device(self, table: HandlerBinding) -> (result: Result<Builder, Error>)
        ensures
            self@.tables.len() <= self@.capacity,
            match result {
                Ok(b) => {
                    &&& self@.tables.len() < self@.capacity
                    &&& b@ == (Config { tables: self@.tables.push(table), ..self@ })
                    &&& b@.wf()
                },
                Err(e) => e == Error::CapacityExceeded && self@.tables.len() == self@.capacity,
            },
    {
        proof {
            use_type_invariant(&self);
        }
        if self.tables.len() >= self.capacity as usize {
            return Err(Error::CapacityExceeded);
        }
        let Builder { name, first, capacity, tables, directory } = self;
        let mut tables = tables;
        tables.push(table);
        Ok(Builder { name, first, capacity, tables, directory })
    }

    /// Records the class and the parent under which the directory entries are
    /// to be created.
    pub fn register_class(self, sys_class: usize, parent_dev: usize) -> (b: Builder)
        ensures
            b@ == (Config {
                directory: Some(Directory { class: sys_class, parent: parent_dev }),
                ..self@
            }),
            b@.wf(),
    {
        proof {
            use_type_invariant(&self);
        }
        let Builder { name, first, capacity, tables, directory: _ } = self;
        Builder {
            name,
            first,
            capacity,
            tables,
            directory: Some(Directory { class: sys_class, parent: parent_dev }),
        }
    }

    /// Consumes the configuration and starts the registration: the first
    /// action, the request for the identifier range, is pending. Nothing has
    /// been acquired yet.
    pub fn build(self) -> (progress: Progress)
        ensures
            progress@ == Outcome::Pending(Machine::start(self@)),
            Machine::start(self@).wf(),
    {
        Progress::Pending(Build::begin(self))
    }
}

} // verus!
