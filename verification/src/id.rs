//! The address of an actor, and the broadcast addresses derived from it.
use vstd::prelude::*;
use vstd::std_specs::cmp::PartialEqSpec;
use vstd::string::*;
use crate::decimal::{decimal, push_decimal};
use crate::type_registry::ShortTypeId;

verus! {

/// Names an actor, or one sub-actor inside a swarm.
///
/// An `ID` is a plain value of 64 bits that is copied freely. No operation here
/// changes one in place (deriving a broadcast address makes a new value), and
/// none can fail. Whoever mints addresses keeps the two reserved numbers,
/// [`broadcast_machine_id`] and [`broadcast_sub_actor_id`], away from real
/// machines and real sub-actors; nothing here checks that.
///
/// Two addresses are equal when their four tags are, and the hash of an address
/// is made of those four tags alone, so an `ID` can key a hash map.
#[derive(Copy, Clone, Hash)]
pub struct ID {
    /// The type of the actor: selects the table of message handlers.
    pub type_id: ShortTypeId,
    /// The machine that hosts the actor, or the reserved number for
    /// "every machine".
    pub machine: u8,
    /// Tells this address from a stale one to a dead actor that sat in the same
    /// slot. It is only carried here: whoever recycles slots counts it up.
    pub version: u8,
    /// The sub-actor within its swarm, or the reserved number for
    /// "every sub-actor".
    pub sub_actor_id: u32,
}

/// The sub-actor number that stands for every sub-actor: all 32 bits set.
#[verifier::when_used_as_spec(spec_broadcast_sub_actor_id)]
pub fn broadcast_sub_actor_id() -> (all: u32)
    ensures
        all == spec_broadcast_sub_actor_id(),
{
    u32::MAX
}

/// What [`broadcast_sub_actor_id`] returns.
pub open spec fn spec_broadcast_sub_actor_id() -> u32 {
    0xFFFF_FFFFu32
}

/// The machine number that stands for every machine: all 8 bits set.
#[verifier::when_used_as_spec(spec_broadcast_machine_id)]
pub fn broadcast_machine_id() -> (all: u8)
    ensures
        all == spec_broadcast_machine_id(),
{
    u8::MAX
}

/// What [`broadcast_machine_id`] returns.
pub open spec fn spec_broadcast_machine_id() -> u8 {
    0xFFu8
}

impl ID {
    /// What [`ID::new`] returns.
    pub open spec fn spec_new(
        type_id: ShortTypeId,
        sub_actor_id: u32,
        machine: u8,
        version: u8,
    ) -> ID {
        ID { type_id: type_id, machine: machine, version: version, sub_actor_id: sub_actor_id }
    }

    /// The address made of the four tags, each stored as given.
    #[verifier::when_used_as_spec(spec_new)]
    pub fn new(type_id: ShortTypeId, sub_actor_id: u32, machine: u8, version: u8) -> (id: ID)
        ensures
            id == ID::spec_new(type_id, sub_actor_id, machine, version),
            id.type_id == type_id,
            id.machine == machine,
            id.version == version,
            id.sub_actor_id == sub_actor_id,
    {
        ID { type_id: type_id, machine: machine, version: version, sub_actor_id: sub_actor_id }
    }

    /// What [`ID::local_broadcast`] returns.
    pub open spec fn spec_local_broadcast(&self) -> ID {
        ID { sub_actor_id: broadcast_sub_actor_id(), ..*self }
    }

    /// The address of every live sub-actor of this type on this machine: this
    /// address with the sub-actor replaced by the reserved number.
    #[verifier::when_used_as_spec(spec_local_broadcast)]
    pub fn local_broadcast(&self) -> (all: ID)
        ensures
            all == self.spec_local_broadcast(),
    {
        ID { sub_actor_id: broadcast_sub_actor_id(), ..*self }
    }

    /// What [`ID::global_broadcast`] returns.
    pub open spec fn spec_global_broadcast(&self) -> ID {
        ID { machine: broadcast_machine_id(), ..self.local_broadcast() }
    }

    /// The address of every live sub-actor of this type on every machine: the
    /// local broadcast address with the machine replaced by the reserved number.
    #[verifier::when_used_as_spec(spec_global_broadcast)]
    pub fn global_broadcast(&self) -> (all: ID)
        ensures
            all == self.spec_global_broadcast(),
    {
        ID { machine: broadcast_machine_id(), ..self.local_broadcast() }
    }

    /// What [`ID::is_broadcast`] returns.
    pub open spec fn spec_is_broadcast(&self) -> bool {
        self.sub_actor_id == broadcast_sub_actor_id()
    }

    /// Whether this address is a broadcast, local or global: whether its
    /// sub-actor is the reserved number.
    #[verifier::when_used_as_spec(spec_is_broadcast)]
    pub fn is_broadcast(&self) -> (yes: bool)
        ensures
            yes == self.spec_is_broadcast(),
    {
        self.sub_actor_id == broadcast_sub_actor_id()
    }

    /// What [`ID::is_global_broadcast`] returns.
    pub open spec fn spec_is_global_broadcast(&self) -> bool {
        self.machine == broadcast_machine_id()
    }

    /// Whether this address reaches every machine: whether its machine is the
    /// reserved number.
    ///
    /// The test looks at the machine alone. An address with the reserved machine
    /// and a real sub-actor therefore counts as global though it is no
    /// broadcast; a caller that wants a global broadcast proper asks
    /// [`ID::is_broadcast`] as well.
    #[verifier::when_used_as_spec(spec_is_global_broadcast)]
    pub fn is_global_broadcast(&self) -> (yes: bool)
        ensures
            yes == self.spec_is_global_broadcast(),
    {
        self.machine == broadcast_machine_id()
    }

    /// What [`ID::debug_string`] returns, as a sequence of characters.
    pub open spec fn spec_debug_string(&self) -> Seq<char> {
        "ID @"@ + decimal(self.machine as nat) + "_?"@ + decimal(self.type_id.0 as nat) + "_#"@
            + decimal(self.sub_actor_id as nat) + "_v"@ + decimal(self.version as nat)
    }

    /// The address in readable form, for diagnostics: `ID @`, the machine, `_?`,
    /// the number of the type, `_#`, the sub-actor, `_v` and the version, each
    /// number in decimal notation.
    pub fn debug_string(&self) -> (text: String)
        ensures
            text@ == self.spec_debug_string(),
    {
        let mut text = String::from_str("ID @");
        push_decimal(&mut text, self.machine as u32);
        text.append("_?");
        push_decimal(&mut text, u16::from(self.type_id) as u32);
        text.append("_#");
        push_decimal(&mut text, self.sub_actor_id);
        text.append("_v");
        push_decimal(&mut text, self.version as u32);
        text
    }
}

impl PartialEq for ID {
    /// Whether the two addresses agree in all four tags.
    fn eq(&self, other: &ID) -> (same: bool) {
        self.type_id == other.type_id && self.machine == other.machine && self.version
            == other.version && self.sub_actor_id == other.sub_actor_id
    }
}

impl Eq for ID {}

impl vstd::std_specs::cmp::PartialEqSpecImpl for ID {
    open spec fn obeys_eq_spec() -> bool {
        true
    }

    /// What `==` means between two addresses.
    open spec fn eq_spec(&self, other: &ID) -> bool {
        &&& self.type_id.0 == other.type_id.0
        &&& self.machine == other.machine
        &&& self.version == other.version
        &&& self.sub_actor_id == other.sub_actor_id
    }
}

/// Equality of addresses is equality of all four tags, and nothing else.
pub proof fn lemma_eq_is_fieldwise(a: ID, b: ID)
    ensures
        a.eq_spec(&b) <==> (a.type_id == b.type_id && a.machine == b.machine && a.version
            == b.version && a.sub_actor_id == b.sub_actor_id),
        a.eq_spec(&b) <==> a == b,
{
}

/// Every address equals itself.
pub proof fn lemma_eq_reflexive(a: ID)
    ensures
        a.eq_spec(&a),
{
}

/// If one address equals another, the other equals the first.
pub proof fn lemma_eq_symmetric(a: ID, b: ID)
    ensures
        a.eq_spec(&b) <==> b.eq_spec(&a),
{
}

/// Two addresses that equal a third equal each other.
pub proof fn lemma_eq_transitive(a: ID, b: ID, c: ID)
    requires
        a.eq_spec(&b),
        b.eq_spec(&c),
    ensures
        a.eq_spec(&c),
{
}

/// The local broadcast address of any address is a broadcast, and has the type,
/// the machine and the version of the address it was made from.
pub proof fn lemma_local_broadcast(id: ID)
    ensures
        id.local_broadcast().is_broadcast(),
        id.local_broadcast().type_id == id.type_id,
        id.local_broadcast().machine == id.machine,
        id.local_broadcast().version == id.version,
{
}

/// The global broadcast address of any address is a broadcast and a global one,
/// and has the type and the version of the address it was made from.
pub proof fn lemma_global_broadcast(id: ID)
    ensures
        id.global_broadcast().is_broadcast(),
        id.global_broadcast().is_global_broadcast(),
        id.global_broadcast().type_id == id.type_id,
        id.global_broadcast().version == id.version,
{
}

/// An address whose sub-actor is not the reserved number is no broadcast.
pub proof fn lemma_concrete_sub_actor_is_no_broadcast(id: ID)
    requires
        id.sub_actor_id != broadcast_sub_actor_id(),
    ensures
        !id.is_broadcast(),
{
}

/// An address built from four tags holds exactly those four tags.
pub proof fn lemma_new_keeps_tags(type_id: ShortTypeId, sub_actor_id: u32, machine: u8, version: u8)
    ensures
        ID::spec_new(type_id, sub_actor_id, machine, version).type_id == type_id,
        ID::spec_new(type_id, sub_actor_id, machine, version).machine == machine,
        ID::spec_new(type_id, sub_actor_id, machine, version).version == version,
        ID::spec_new(type_id, sub_actor_id, machine, version).sub_actor_id == sub_actor_id,
{
}

} // verus!
