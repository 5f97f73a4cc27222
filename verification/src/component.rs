//! Subsystem registry and dispatch core.
//!
//! `init` builds the ordered subsystem table from a payload configuration,
//! refusing any table whose slot ids do not match their positions; that check
//! is a startup integrity contract, not a runtime condition.  `dispatch_cmd`
//! routes one decoded command to one subsystem's handler — the only place a
//! subsystem's state changes — and returns its reply frame.

use vstd::prelude::*;

use crate::codec::{spec_encode_status, Command};
use crate::dfgm::Dfgm;

verus! {

/// The dispatch counter after one more command, wrapping at the byte limit
/// so that a handler never panics.
pub open spec fn inc_wrap(s: u8) -> u8 {
    if s == 255 {
        0
    } else {
        (s + 1) as u8
    }
}

/// Routing failure: the command could not be handed to a subsystem handler.
#[derive(Debug)]
pub enum DispatchError {
    /// The command's address names no registry slot.
    AddressOutOfRange,
    /// The addressed slot holds the unrecognized/root subsystem.
    UnsupportedComponent,
}

/// Startup integrity failure: some payload slot's self-reported id differs
/// from its position in the table.
#[derive(Debug)]
pub struct RegistryIntegrityError {
    /// The first position whose slot reports a different id.
    pub index: usize,
}

/// The electrical power subsystem stub.
pub struct Eps {
    uart: u8,
    state: u8,
}

impl Eps {
    pub closed spec fn spec_uart(self) -> u8 {
        self.uart
    }

    /// The dispatch counter, advanced by every command.
    pub closed spec fn spec_state(self) -> u8 {
        self.state
    }

    pub fn configure() -> (e: Eps)
        ensures
            e.spec_uart() == 7,
            e.spec_state() == 0,
    {
        Eps { uart: 7, state: 0 }
    }

    pub fn uart(&self) -> (r: u8)
        ensures
            r == self.spec_uart(),
    {
        self.uart
    }

    pub fn state(&self) -> (r: u8)
        ensures
            r == self.spec_state(),
    {
        self.state
    }

    /// Handle one command: the counter advances and the reply carries the
    /// post-increment counter as its status byte.  The operand has no EPS
    /// grammar; unusable operand bytes are non-fatal and change nothing.
    pub fn dispatch(&mut self, cmd: &Command) -> (r: Result<Vec<u8>, DispatchError>)
        ensures
            final(self).spec_state() == inc_wrap(old(self).spec_state()),
            final(self).spec_uart() == old(self).spec_uart(),
            r matches Ok(f) && f@ == spec_encode_status(
                cmd.address,
                cmd.opcode,
                inc_wrap(old(self).spec_state()),
            ),
    {
        if self.state == 255 {
            self.state = 0;
        } else {
            self.state = self.state + 1;
        }
        Ok(cmd.encode_status(self.state))
    }
}

/// The attitude-control subsystem stub.
pub struct Adcs {
    port: i32,
}

impl Adcs {
    pub closed spec fn spec_port(self) -> i32 {
        self.port
    }

    /// Negating the port must never overflow.
    pub open spec fn wf(self) -> bool {
        self.spec_port() != i32::MIN
    }

    pub fn configure(args: i32) -> (a: Adcs)
        requires
            args != i32::MIN,
        ensures
            a.spec_port() == args,
            a.wf(),
    {
        Adcs { port: args }
    }

    pub fn port(&self) -> (r: i32)
        ensures
            r == self.spec_port(),
    {
        self.port
    }

    /// Handle one command: the state transition flips the port's sign and
    /// the reply carries a fixed status byte.
    pub fn dispatch(&mut self, cmd: &Command) -> (r: Result<Vec<u8>, DispatchError>)
        requires
            old(self).wf(),
        ensures
            final(self).spec_port() == -old(self).spec_port(),
            final(self).wf(),
            r matches Ok(f) && f@ == spec_encode_status(cmd.address, cmd.opcode, 42),
    {
        self.port = -self.port;
        Ok(cmd.encode_status(42))
    }
}

/// What a configured payload slot asks for.
#[derive(Clone, Copy, PartialEq, Eq, Structural)]
pub enum PayloadName {
    Eps,
    Adcs,
    Dfgm,
    /// The ground-station stub: served by the root subsystem.
    Gs,
}

/// One entry of the payload configuration: the slot's self-reported id and
/// the subsystem it asks for.
#[derive(Clone, Copy, PartialEq, Eq, Structural)]
pub struct PayloadSlot {
    pub id: usize,
    pub name: PayloadName,
}

/// One addressable unit of on-board functionality.  The set is closed and
/// fixed: the registry is built once at startup and subsystems have no
/// dynamic lifecycle.
pub enum Component {
    Root,
    Eps(Eps),
    Adcs(Adcs),
    Dfgm(Dfgm),
}

/// Validity of a subsystem's private state.
pub open spec fn component_wf(c: Component) -> bool {
    c matches Component::Adcs(a) ==> a.wf()
}

/// Whether a component is the startup state of the subsystem a slot asks for.
pub open spec fn slot_matches(c: Component, name: PayloadName) -> bool {
    match name {
        PayloadName::Eps => c matches Component::Eps(e) && e.spec_uart() == 7
            && e.spec_state() == 0,
        PayloadName::Adcs => c matches Component::Adcs(a) && a.spec_port() == 7,
        PayloadName::Dfgm => c matches Component::Dfgm(d) && d.spec_port() == 1
            && d.spec_state() == 0 && d.spec_listen(),
        PayloadName::Gs => c is Root,
    }
}

/// The payload configuration this system boots with, in address order.
pub fn default_payloads() -> (slots: Vec<PayloadSlot>)
    ensures
        slots@.len() == 4,
        forall|i: int| 0 <= i < slots@.len() ==> (#[trigger] slots@[i]).id == i,
        slots@[0].name == PayloadName::Eps,
        slots@[1].name == PayloadName::Adcs,
        slots@[2].name == PayloadName::Dfgm,
        slots@[3].name == PayloadName::Gs,
{
    let mut slots: Vec<PayloadSlot> = Vec::new();
    slots.push(PayloadSlot { id: 0, name: PayloadName::Eps });
    slots.push(PayloadSlot { id: 1, name: PayloadName::Adcs });
    slots.push(PayloadSlot { id: 2, name: PayloadName::Dfgm });
    slots.push(PayloadSlot { id: 3, name: PayloadName::Gs });
    slots
}

/// Build the subsystem table, one entry per configured slot in address
/// order.  Succeeds exactly when every slot's self-reported id equals its
/// position; otherwise nothing is constructed and the first offending
/// position is reported.
pub fn init(slots: &Vec<PayloadSlot>) -> (r: Result<Vec<Component>, RegistryIntegrityError>)
    ensures
        r is Ok <==> (forall|i: int| 0 <= i < slots@.len() ==> (#[trigger] slots@[i]).id == i),
        r matches Ok(cs) ==> {
            &&& cs@.len() == slots@.len()
            &&& forall|i: int|
                0 <= i < cs@.len() ==> slot_matches(#[trigger] cs@[i], slots@[i].name)
            &&& forall|i: int| 0 <= i < cs@.len() ==> component_wf(#[trigger] cs@[i])
        },
        r matches Err(e) ==> {
            &&& e.index < slots@.len()
            &&& slots@[e.index as int].id != e.index
            &&& forall|j: int| 0 <= j < e.index ==> (#[trigger] slots@[j]).id == j
        },
{
    let mut components: Vec<Component> = Vec::new();
    let mut i: usize = 0;
    while i < slots.len()
        invariant
            i <= slots@.len(),
            components@.len() == i,
            forall|j: int| 0 <= j < i ==> (#[trigger] slots@[j]).id == j,
            forall|j: int|
                0 <= j < i ==> slot_matches(#[trigger] components@[j], slots@[j].name),
            forall|j: int| 0 <= j < i ==> component_wf(#[trigger] components@[j]),
        decreases slots@.len() - i,
    {
        let slot = slots[i];
        if slot.id != i {
            return Err(RegistryIntegrityError { index: i });
        }
        match slot.name {
            PayloadName::Eps => components.push(Component::Eps(Eps::configure())),
            PayloadName::Adcs => components.push(Component::Adcs(Adcs::configure(7))),
            PayloadName::Dfgm => components.push(Component::Dfgm(Dfgm::configure())),
            PayloadName::Gs => components.push(Component::Root),
        }
        i += 1;
    }
    Ok(components)
}

/// Route one command to one subsystem's handler and return its reply frame.
/// Handler invocation is the only place subsystem state changes; the root
/// subsystem changes nothing and signals `UnsupportedComponent`.
pub fn dispatch_cmd(target: &mut Component, cmd: &Command) -> (r: Result<Vec<u8>, DispatchError>)
    requires
        component_wf(*old(target)),
    ensures
        component_wf(*final(target)),
        *old(target) is Root ==> {
            &&& *final(target) is Root
            &&& r matches Err(e) && e is UnsupportedComponent
        },
        *old(target) matches Component::Eps(e) ==> {
            &&& *final(target) matches Component::Eps(e2) && e2.spec_state() == inc_wrap(
                e.spec_state(),
            ) && e2.spec_uart() == e.spec_uart()
            &&& r matches Ok(f) && f@ == spec_encode_status(
                cmd.address,
                cmd.opcode,
                inc_wrap(e.spec_state()),
            )
        },
        *old(target) matches Component::Adcs(a) ==> {
            &&& *final(target) matches Component::Adcs(a2) && a2.spec_port()
                == -a.spec_port()
            &&& r matches Ok(f) && f@ == spec_encode_status(cmd.address, cmd.opcode, 42)
        },
        *old(target) matches Component::Dfgm(d) ==> {
            &&& *final(target) matches Component::Dfgm(d2) && d2 == d.spec_dispatch(
                cmd.operand@,
            )
            &&& r matches Ok(f) && f@ == spec_encode_status(
                cmd.address,
                cmd.opcode,
                inc_wrap(d.spec_state()),
            )
        },
{
    match target {
        Component::Eps(eps) => eps.dispatch(cmd),
        Component::Adcs(adcs) => adcs.dispatch(cmd),
        Component::Dfgm(dfgm) => dfgm.dispatch(cmd),
        Component::Root => Err(DispatchError::UnsupportedComponent),
    }
}

} // verus!
