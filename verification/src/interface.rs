use vstd::prelude::*;

verus! {

/// The capability kinds a metadata account can carry.
#[derive(Clone, Copy, Debug, PartialEq, Eq, Structural)]
pub enum Feature {
    MasterEdition,
    Royalties,
    Subscription,
}

/// Print-run bookkeeping for an edition: how many copies exist and, if
/// bounded, how many may ever exist.
#[derive(Clone, Debug)]
pub struct MasterEdition {
    pub supply: u64,
    pub max_supply: Option<u64>,
    /// A field that's specific to our implementation.
    pub artist_name: String,
}

impl MasterEdition {
    /// Builds an edition from its parts.
    pub fn new(supply: u64, max_supply: Option<u64>, artist_name: String) -> (r: MasterEdition)
        ensures
            r.supply == supply,
            r.max_supply == max_supply,
            r.artist_name@ == artist_name@,
    {
        MasterEdition { supply, max_supply, artist_name }
    }

    /// The current number of copies of an edition.
    pub fn get_supply(master_edition: &MasterEdition) -> (r: u64)
        ensures
            r == master_edition.supply,
    {
        master_edition.supply
    }

    /// The current number of copies.
    pub fn supply(&self) -> (r: u64)
        ensures
            r == self.supply,
    {
        self.supply
    }

    /// The bound on how many copies may ever exist, if one was set.
    pub fn max_supply(&self) -> (r: Option<u64>)
        ensures
            r == self.max_supply,
    {
        self.max_supply
    }
}

/// The parties a royalty split is paid to, each by its 32-byte key.
#[derive(Clone, Debug)]
pub struct Royalties {
    pub creators: Vec<[u8; 32]>,
}

impl Royalties {
    /// The creators' keys, in order.
    pub fn creators(&self) -> (r: &Vec<[u8; 32]>)
        ensures
            r@ == self.creators@,
    {
        &self.creators
    }
}

/// A recurring-payment capability: its price and its billing period.
#[derive(Clone, Copy, Debug, PartialEq, Eq, Structural)]
pub struct Subscription {
    pub price: u64,
    pub period: u64,
}

impl Subscription {
    /// What one billing period costs.
    pub fn price(&self) -> (r: u64)
        ensures
            r == self.price,
    {
        self.price
    }

    /// How long one billing period lasts.
    pub fn period(&self) -> (r: u64)
        ensures
            r == self.period,
    {
        self.period
    }
}

/// One optional capability of a metadata account, as a tagged union: each
/// variant carries its own data, so no dynamic dispatch is needed.
#[derive(Clone, Debug)]
pub enum Capability {
    MasterEdition(MasterEdition),
    Royalties(Royalties),
    Subscription(Subscription),
}

/// The feature kind a capability value belongs to.
pub open spec fn feature_of(c: Capability) -> Feature {
    match c {
        Capability::MasterEdition(_) => Feature::MasterEdition,
        Capability::Royalties(_) => Feature::Royalties,
        Capability::Subscription(_) => Feature::Subscription,
    }
}

/// The purely declarative metadata layer: descriptive fields plus the set of
/// capabilities this account carries.
#[derive(Clone, Debug)]
pub struct MetadataAccount {
    pub name: String,
    pub description: String,
    pub uri: String,
    pub capabilities: Vec<Capability>,
}

impl MetadataAccount {
    /// Which capability kinds are present, one per capability, in order.
    pub fn features(&self) -> (r: Vec<Feature>)
        ensures
            r@.len() == self.capabilities@.len(),
            forall|i: int|
                0 <= i < r@.len() ==> r@[i] == feature_of(#[trigger] self.capabilities@[i]),
    {
        let mut out: Vec<Feature> = Vec::new();
        let mut i: usize = 0;
        while i < self.capabilities.len()
            invariant
                i <= self.capabilities@.len(),
                out@.len() == i,
                forall|j: int|
                    0 <= j < i ==> out@[j] == feature_of(#[trigger] self.capabilities@[j]),
            decreases self.capabilities@.len() - i,
        {
            let f = match &self.capabilities[i] {
                Capability::MasterEdition(_) => Feature::MasterEdition,
                Capability::Royalties(_) => Feature::Royalties,
                Capability::Subscription(_) => Feature::Subscription,
            };
            out.push(f);
            i = i + 1;
        }
        out
    }

    /// The account's display name.
    pub fn name(&self) -> (r: &String)
        ensures
            r@ == self.name@,
    {
        &self.name
    }

    /// The account's description text.
    pub fn description(&self) -> (r: &String)
        ensures
            r@ == self.description@,
    {
        &self.description
    }

    /// The account's resource locator.
    pub fn uri(&self) -> (r: &String)
        ensures
            r@ == self.uri@,
    {
        &self.uri
    }

    /// The first master-edition capability, if one is present.
    pub fn master_edition(&self) -> (r: Option<&MasterEdition>)
        ensures
            r is Some <==> exists|i: int|
                0 <= i < self.capabilities@.len() && (#[trigger] self.capabilities@[i])
                    is MasterEdition,
    {
        let mut i: usize = 0;
        while i < self.capabilities.len()
            invariant
                i <= self.capabilities@.len(),
                forall|j: int|
                    0 <= j < i ==> !((#[trigger] self.capabilities@[j]) is MasterEdition),
            decreases self.capabilities@.len() - i,
        {
            if let Capability::MasterEdition(m) = &self.capabilities[i] {
                return Some(m);
            }
            i = i + 1;
        }
        None
    }

    /// The first royalties capability, if one is present.
    pub fn royalties(&self) -> (r: Option<&Royalties>)
        ensures
            r is Some <==> exists|i: int|
                0 <= i < self.capabilities@.len() && (#[trigger] self.capabilities@[i])
                    is Royalties,
    {
        let mut i: usize = 0;
        while i < self.capabilities.len()
            invariant
                i <= self.capabilities@.len(),
                forall|j: int| 0 <= j < i ==> !((#[trigger] self.capabilities@[j]) is Royalties),
            decreases self.capabilities@.len() - i,
        {
            if let Capability::Royalties(m) = &self.capabilities[i] {
                return Some(m);
            }
            i = i + 1;
        }
        None
    }

    /// The first subscription capability, if one is present.
    pub fn subscription(&self) -> (r: Option<&Subscription>)
        ensures
            r is Some <==> exists|i: int|
                0 <= i < self.capabilities@.len() && (#[trigger] self.capabilities@[i])
                    is Subscription,
    {
        let mut i: usize = 0;
        while i < self.capabilities.len()
            invariant
                i <= self.capabilities@.len(),
                forall|j: int| 0 <= j < i ==> !((#[trigger] self.capabilities@[j]) is Subscription),
            decreases self.capabilities@.len() - i,
        {
            if let Capability::Subscription(m) = &self.capabilities[i] {
                return Some(m);
            }
            i = i + 1;
        }
        None
    }
}

} // verus!
