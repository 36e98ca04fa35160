//! The registry that tells which protocol is served on which port.
use crate::protocol::traits::Protocol;
use std::collections::HashMap;
use vstd::prelude::*;

verus! {

/// The name of each protocol in a map of names.
spec fn names_of(m: Map<u16, String>) -> Map<u16, Seq<char>> {
    Map::new(|port: u16| m.contains_key(port), |port: u16| m[port]@)
}

/// The protocols registered, by port: the name of each. Making a protocol back
/// by its type needs `std::any::Any`, and is left to the server that uses it.
pub struct ProtocolRegistry {
    protocols: HashMap<u16, String>,
    history: Ghost<Seq<(u16, Seq<char>)>>,
}

impl ProtocolRegistry {
    /// The names are those that the registrations so far leave.
    #[verifier::type_invariant]
    spec fn inv(self) -> bool {
        self.names() == registered_names(self.history@)
    }

    /// The name of the protocol registered on each port.
    pub closed spec fn names(&self) -> Map<u16, Seq<char>> {
        names_of(self.protocols@)
    }

    /// The registrations made so far, in order: each a port and the name of the
    /// protocol registered on it.
    pub closed spec fn registrations(&self) -> Seq<(u16, Seq<char>)> {
        self.history@
    }

    /// An empty registry.
    pub fn new() -> (r: Self)
        ensures
            r.names() == Map::<u16, Seq<char>>::empty(),
            r.registrations() == Seq::<(u16, Seq<char>)>::empty(),
    {
        let protocols: HashMap<u16, String> = HashMap::new();
        proof {
            assert(names_of(protocols@) =~= Map::<u16, Seq<char>>::empty());
            assert(registered_names(Seq::<(u16, Seq<char>)>::empty()) == Map::<u16, Seq<char>>::empty());
        }
        Self { protocols, history: Ghost(Seq::empty()) }
    }

    /// Registers on `port` the protocol that `factory` makes, replacing the one
    /// registered there before. The factory is called once, for the protocol's name.
    pub fn register<P, F>(&mut self, port: u16, factory: F)
        where
            P: Protocol + 'static,
            F: Fn() -> P + Send + Sync + 'static,
        requires
            call_requires(factory, ()),
        ensures
            exists|p: P|
                {
                    &&& call_ensures(factory, (), p)
                    &&& final(self).names() == old(self).names().insert(port, p.spec_name())
                    &&& final(self).registrations() == old(self).registrations().push(
                        (port, p.spec_name()),
                    )
                },
    {
        broadcast use vstd::std_specs::hash::group_hash_axioms;

        let protocol = factory();
        let protocol_name = protocol.name();
        let name = protocol_name.to_string();
        proof {
            vstd::string::to_string_from_display_ensures_for_str(protocol_name, name);
        }
        let mut taken = ProtocolRegistry::new();
        std::mem::swap(&mut taken, self);
        proof {
            use_type_invariant(&taken);
        }
        let ghost old_names = taken.names();
        let ProtocolRegistry { mut protocols, history } = taken;
        let ghost before = protocols@;
        protocols.insert(port, name);
        let ghost registrations = history@.push((port, protocol.spec_name()));
        proof {
            assert(protocols@ == before.insert(port, name));
            lemma_registered_names_push(history@, port, protocol.spec_name());
        }
        proof {
            assert(names_of(protocols@) =~= old_names.insert(port, protocol.spec_name()));
        }
        *self = ProtocolRegistry { protocols, history: Ghost(registrations) };
    }

    /// Whether a protocol is registered on `port`: whether one of the
    /// registrations so far was on that port.
    pub fn has_protocol(&self, port: u16) -> (r: bool)
        ensures
            r == self.names().contains_key(port),
            r == exists|i: int|
                0 <= i < self.registrations().len() && (#[trigger] self.registrations()[i]).0 == port,
    {
        broadcast use vstd::std_specs::hash::group_hash_axioms;

        proof {
            use_type_invariant(self);
            lemma_lookup_after_registrations(self.registrations(), port);
        }
        self.protocols.contains_key(&port)
    }

    /// The name of the protocol registered on `port`: the name of the last of the
    /// registrations so far on that port, if any.
    pub fn get_protocol_name(&self, port: u16) -> (r: Option<&str>)
        ensures
            r is Some <==> self.names().contains_key(port),
            r matches Some(name) ==> name@ == self.names()[port],
            r is Some <==> exists|i: int|
                0 <= i < self.registrations().len() && (#[trigger] self.registrations()[i]).0 == port,
            forall|j: int|
                0 <= j < self.registrations().len() && (#[trigger] self.registrations()[j]).0 == port
                    && (forall|k: int|
                    j < k < self.registrations().len() ==> (#[trigger] self.registrations()[k]).0
                        != port) ==> (r matches Some(name) && name@ == self.registrations()[j].1),
    {
        broadcast use vstd::std_specs::hash::group_hash_axioms;

        proof {
            use_type_invariant(self);
            lemma_lookup_after_registrations(self.registrations(), port);
        }
        match self.protocols.get(&port) {
            Some(name) => Some(name.as_str()),
            None => None,
        }
    }
}

/// The names that a sequence of registrations, each a port and the name of the
/// protocol registered on it, leaves in an empty registry.
pub open spec fn registered_names(regs: Seq<(u16, Seq<char>)>) -> Map<u16, Seq<char>>
    decreases regs.len(),
{
    if regs.len() == 0 {
        Map::empty()
    } else {
        registered_names(regs.drop_last()).insert(regs.last().0, regs.last().1)
    }
}

/// One more registration after a sequence of them inserts its port and name:
/// so a registry made by `new` and then `register` on each element of `regs`
/// has `registered_names(regs)` as its names.
pub proof fn lemma_registered_names_push(regs: Seq<(u16, Seq<char>)>, port: u16, name: Seq<char>)
    ensures
        registered_names(regs.push((port, name))) == registered_names(regs).insert(port, name),
{
    assert(regs.push((port, name)).drop_last() =~= regs);
}

/// After a sequence of registrations, a port is registered exactly when one of
/// them was on that port, and it answers the name of the last of them.
#[verifier::spinoff_prover]
#[verifier::rlimit(40)]
pub proof fn lemma_lookup_after_registrations(regs: Seq<(u16, Seq<char>)>, port: u16)
    ensures
        registered_names(regs).contains_key(port) <==> exists|i: int|
            0 <= i < regs.len() && (#[trigger] regs[i]).0 == port,
        forall|j: int|
            0 <= j < regs.len() && (#[trigger] regs[j]).0 == port && (forall|k: int|
                j < k < regs.len() ==> (#[trigger] regs[k]).0 != port) ==> registered_names(regs)[port]
                == regs[j].1,
    decreases regs.len(),
{
    if regs.len() > 0 {
        let prefix = regs.drop_last();
        let last = regs.len() - 1;
        lemma_lookup_after_registrations(prefix, port);
        if regs[last].0 == port {
            assert forall|j: int|
                0 <= j < regs.len() && (#[trigger] regs[j]).0 == port && (forall|k: int|
                    j < k < regs.len() ==> (#[trigger] regs[k]).0 != port) implies registered_names(
                regs,
            )[port] == regs[j].1 by {
                if j < last {
                    assert(regs[last].0 == port);
                }
            }
        } else {
            if exists|i: int| 0 <= i < regs.len() && (#[trigger] regs[i]).0 == port {
                let i = choose|i: int| 0 <= i < regs.len() && (#[trigger] regs[i]).0 == port;
                assert(prefix[i].0 == port);
            }
            if exists|i: int| 0 <= i < prefix.len() && (#[trigger] prefix[i]).0 == port {
                let i = choose|i: int| 0 <= i < prefix.len() && (#[trigger] prefix[i]).0 == port;
                assert(regs[i].0 == port);
            }
            assert forall|j: int|
                0 <= j < regs.len() && (#[trigger] regs[j]).0 == port && (forall|k: int|
                    j < k < regs.len() ==> (#[trigger] regs[k]).0 != port) implies registered_names(
                regs,
            )[port] == regs[j].1 by {
                assert(j < last);
                assert(prefix[j] == regs[j]);
                assert forall|k: int| j < k < prefix.len() implies (#[trigger] prefix[k]).0 != port by {
                    assert(prefix[k] == regs[k]);
                }
            }
        }
    }
}

/// After a protocol is registered on a port, that port answers the protocol's
/// name, and every other port answers as it did before.
pub proof fn lemma_register_then_lookup(
    before: ProtocolRegistry,
    after: ProtocolRegistry,
    port: u16,
    name: Seq<char>,
    other: u16,
)
    requires
        after.names() == before.names().insert(port, name),
        other != port,
    ensures
        after.names().contains_key(port),
        after.names()[port] == name,
        after.names().contains_key(other) == before.names().contains_key(other),
        after.names().contains_key(other) ==> after.names()[other] == before.names()[other],
{
}

} // verus!
