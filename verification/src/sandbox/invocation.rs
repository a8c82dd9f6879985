use std::path::PathBuf;
use vstd::prelude::*;

use super::Sandbox;
use vstd::std_specs::convert::IntoSpec;

verus! {

#[verifier::external_type_specification]
#[verifier::external_body]
pub struct ExPathBuf(PathBuf);

/// What a guest may do in a directory it is given.
#[derive(Debug, Clone, Copy, PartialEq, Eq, Structural)]
pub enum DirAccess {
    /// List and read the directory and read its files.
    Read,
    /// Also create and change entries, and write files.
    ReadWrite,
}

/// A host directory that a guest sees under a path of its own.
#[derive(Debug)]
pub struct Preopen {
    host_path: PathBuf,
    guest_path: String,
    access: DirAccess,
}

impl Preopen {
    /// What the guest may do in the directory.
    pub closed spec fn spec_access(&self) -> DirAccess {
        self.access
    }

    /// The directory on the host.
    pub closed spec fn spec_host_path(&self) -> PathBuf {
        self.host_path
    }

    /// The path under which the guest sees the directory.
    pub closed spec fn spec_guest_path(&self) -> String {
        self.guest_path
    }

    /// The directory on the host.
    pub fn host_path(&self) -> (r: &PathBuf)
        ensures
            *r == self.spec_host_path(),
    {
        &self.host_path
    }

    /// The path under which the guest sees the directory.
    pub fn guest_path(&self) -> (r: &String)
        ensures
            *r == self.spec_guest_path(),
    {
        &self.guest_path
    }

    /// What the guest may do in the directory.
    pub fn access(&self) -> (r: DirAccess)
        ensures
            r == self.spec_access(),
    {
        self.access
    }
}

/// One call into a module run in a sandbox, with the host directories that
/// the guest is given, in the order they were added.
pub struct Invocation<'a> {
    sandbox: &'a Sandbox,
    wasm: &'a [u8],
    preopens: Vec<Preopen>,
}

impl<'a> Invocation<'a> {
    /// The sandbox the call runs in.
    pub closed spec fn spec_sandbox(&self) -> &'a Sandbox {
        self.sandbox
    }

    /// The module's bytes.
    pub closed spec fn spec_wasm(&self) -> Seq<u8> {
        self.wasm@
    }

    /// The directories the guest is given, in the order they were added.
    pub closed spec fn spec_preopens(&self) -> Seq<Preopen> {
        self.preopens@
    }

    /// What the guest may do in each directory it is given, in order.
    pub closed spec fn spec_accesses(&self) -> Seq<DirAccess> {
        self.preopens@.map_values(|p: Preopen| p.access)
    }

    /// A call into `wasm`, run in `sandbox`, that gives the guest no
    /// directory.
    pub(super) fn new(sandbox: &'a Sandbox, wasm: &'a [u8]) -> (r: Self)
        ensures
            r.spec_sandbox() == sandbox,
            r.spec_wasm() == wasm@,
            r.spec_accesses() == Seq::<DirAccess>::empty(),
    {
        Self { sandbox, wasm, preopens: Vec::new() }
    }

    /// Also gives the guest read access to the host directory `host_path`,
    /// seen by the guest as `guest_path`.
    pub fn allow_read_dir<H: Into<PathBuf>, G: Into<String>>(self, host_path: H, guest_path: G) -> (r: Self)
        ensures
            r.spec_sandbox() == self.spec_sandbox(),
            r.spec_wasm() == self.spec_wasm(),
            r.spec_accesses() == self.spec_accesses().push(DirAccess::Read),
            r.spec_preopens().len() == self.spec_preopens().len() + 1,
            r.spec_preopens().drop_last() == self.spec_preopens(),
            r.spec_preopens().last().spec_access() == DirAccess::Read,
            H::obeys_into_spec() ==> r.spec_preopens().last().spec_host_path() == host_path.into_spec(),
            G::obeys_into_spec() ==> r.spec_preopens().last().spec_guest_path() == guest_path.into_spec(),
    {
        let mut inv = self;
        let p = Preopen { host_path: host_path.into(), guest_path: guest_path.into(), access: DirAccess::Read };
        inv.preopens.push(p);
        proof {
            assert(inv.spec_accesses() =~= self.spec_accesses().push(DirAccess::Read));
            assert(inv.spec_preopens().drop_last() =~= self.spec_preopens());
        }
        inv
    }

    /// Also gives the guest read and write access to the host directory
    /// `host_path`, seen by the guest as `guest_path`.
    pub fn allow_write_dir<H: Into<PathBuf>, G: Into<String>>(self, host_path: H, guest_path: G) -> (r: Self)
        ensures
            r.spec_sandbox() == self.spec_sandbox(),
            r.spec_wasm() == self.spec_wasm(),
            r.spec_accesses() == self.spec_accesses().push(DirAccess::ReadWrite),
            r.spec_preopens().len() == self.spec_preopens().len() + 1,
            r.spec_preopens().drop_last() == self.spec_preopens(),
            r.spec_preopens().last().spec_access() == DirAccess::ReadWrite,
            H::obeys_into_spec() ==> r.spec_preopens().last().spec_host_path() == host_path.into_spec(),
            G::obeys_into_spec() ==> r.spec_preopens().last().spec_guest_path() == guest_path.into_spec(),
    {
        let mut inv = self;
        let p = Preopen { host_path: host_path.into(), guest_path: guest_path.into(), access: DirAccess::ReadWrite };
        inv.preopens.push(p);
        proof {
            assert(inv.spec_accesses() =~= self.spec_accesses().push(DirAccess::ReadWrite));
            assert(inv.spec_preopens().drop_last() =~= self.spec_preopens());
        }
        inv
    }

    /// The sandbox the call runs in.
    pub fn sandbox(&self) -> (r: &'a Sandbox)
        ensures
            r == self.spec_sandbox(),
    {
        self.sandbox
    }

    /// The module's bytes.
    pub fn wasm(&self) -> (r: &'a [u8])
        ensures
            r@ == self.spec_wasm(),
    {
        self.wasm
    }

    /// The directories the guest is given, in the order they were added.
    pub fn preopens(&self) -> (r: &Vec<Preopen>)
        ensures
            r@ == self.spec_preopens(),
            r@.map_values(|p: Preopen| p.spec_access()) == self.spec_accesses(),
    {
        &self.preopens
    }
}

impl Sandbox {
    /// A call into the module `wasm`, run in this sandbox, that gives the
    /// guest no directory yet.
    pub fn module<'a>(&'a self, wasm: &'a [u8]) -> (r: Invocation<'a>)
        ensures
            r.spec_sandbox() == self,
            r.spec_wasm() == wasm@,
            r.spec_accesses() == Seq::<DirAccess>::empty(),
    {
        Invocation::new(self, wasm)
    }
}

} // verus!
