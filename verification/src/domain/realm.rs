//! The realms of the game.

use vstd::prelude::*;

verus! {

/// A realm. Every class belongs to one of the three realms; `All` marks an
/// item that any realm can use.
#[derive(Debug, Clone, Copy, PartialEq, Eq, Hash, Structural)]
pub enum Realm {
    /// Every realm at once.
    All,
    /// The realm of Albion.
    Albion,
    /// The realm of Midgard.
    Midgard,
    /// The realm of Hibernia.
    Hibernia,
}

impl Realm {
    /// The numeric identifier of the realm.
    pub open spec fn spec_id(&self) -> u16 {
        match self {
            Realm::All => 0,
            Realm::Albion => 1,
            Realm::Midgard => 2,
            Realm::Hibernia => 3,
        }
    }

    /// Returns the numeric identifier of the realm.
    #[verifier::when_used_as_spec(spec_id)]
    pub fn id(&self) -> (id: u16)
        ensures
            id == self.spec_id(),
    {
        match self {
            Realm::All => 0,
            Realm::Albion => 1,
            Realm::Midgard => 2,
            Realm::Hibernia => 3,
        }
    }

    /// Finds the realm with identifier `id`, if there is one.
    pub fn from_repr(id: u16) -> (realm: Option<Realm>)
        ensures
            realm == Self::spec_from_repr(id),
            match realm {
                Some(r) => r.spec_id() == id,
                None => forall|r: Realm| r.spec_id() != id,
            },
    {
        let realm = match id {
            0u16 => Some(Realm::All),
            1u16 => Some(Realm::Albion),
            2u16 => Some(Realm::Midgard),
            3u16 => Some(Realm::Hibernia),
            _ => None,
        };
        proof {
            if let Some(found) = realm {
                assert(found.spec_id() == id);
                let c = choose|c: Realm| c.spec_id() == id;
                assert(c.spec_id() == id);
                assert(c == found);
            }
        }
        realm
    }

    /// The one with identifier `id`, if there is one.
    pub open spec fn spec_from_repr(id: u16) -> Option<Realm> {
        if exists|c: Realm| c.spec_id() == id {
            Some(choose|c: Realm| c.spec_id() == id)
        } else {
            None
        }
    }
}

impl Realm {
    /// The name of the realm.
    pub open spec fn spec_to_string(&self) -> Seq<char> {
        match self {
            Realm::All => "All"@,
            Realm::Albion => "Albion"@,
            Realm::Midgard => "Midgard"@,
            Realm::Hibernia => "Hibernia"@,
        }
    }

    /// Returns the name of the realm.
    pub fn to_string(&self) -> (text: String)
        ensures
            text@ == self.spec_to_string(),
    {
        let text = match self {
            Realm::All => "All",
            Realm::Albion => "Albion",
            Realm::Midgard => "Midgard",
            Realm::Hibernia => "Hibernia",
        };
        text.to_owned()
    }

    /// Returns every realm once, by rising identifier.
    pub fn all() -> (realms: Vec<Realm>)
        ensures
            realms@ == seq![Realm::All, Realm::Albion, Realm::Midgard, Realm::Hibernia],
    {
        let realms = vec![Realm::All, Realm::Albion, Realm::Midgard, Realm::Hibernia];
        assert(realms@ =~= seq![Realm::All, Realm::Albion, Realm::Midgard, Realm::Hibernia]);
        realms
    }
}

impl From<Realm> for u16 {
    fn from(realm: Realm) -> (id: u16) {
        realm.id()
    }
}

impl vstd::std_specs::convert::FromSpecImpl<Realm> for u16 {
    open spec fn obeys_from_spec() -> bool {
        true
    }

    open spec fn from_spec(realm: Realm) -> u16 {
        realm.spec_id()
    }
}

} // verus!
