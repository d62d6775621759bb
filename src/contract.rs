use vstd::prelude::*;

use crate::error::ContractError;
use crate::farm::{kind_index, KomplePlant, PlantType};
use crate::msg::{ContractInformation, KompleCollection};
use crate::state::{harvest_spec, in_grid, new_grid, FarmProfile, Grid, NoiseJob, Points};

verus! {

/// Seeds minted at once when no randomness proxy is configured.
pub const DIRECT_SEEDS: i32 = 2;

/// Fewest seeds that a random draw mints.
pub const MIN_RANDOM_SEEDS: i32 = 2;

/// Most seeds that a random draw mints.
pub const MAX_RANDOM_SEEDS: i32 = 5;

// ---------------------------------------------------------------------------
// Randomness.
// ---------------------------------------------------------------------------

/// The integer that nois derives from `randomness` in `[begin, end]`.
pub uninterp spec fn int_in_range_of(randomness: Seq<u8>, begin: int, end: int) -> int;

/// Relies on `nois::int_in_range`: an integer in `[begin, end]`, both bounds
/// included, that depends on the randomness and the bounds alone (`rand`'s
/// `gen_range` panics on an empty range, hence `begin <= end`).
#[verifier::external_body]
fn random_in_range(randomness: [u8; 32], begin: i32, end: i32) -> (r: i32)
    requires
        begin <= end,
    ensures
        begin <= r <= end,
        r == int_in_range_of(randomness@, begin as int, end as int),
{
    nois::int_in_range(randomness, begin, end)
}

// ---------------------------------------------------------------------------
// Mint intents.
// ---------------------------------------------------------------------------

/// One seed token that the mint module is asked to mint for `recipient`.
#[derive(Clone, Debug, PartialEq, Eq)]
pub struct AdminMint {
    pub contract_addr: String,
    pub collection_id: u32,
    pub recipient: String,
    pub metadata_id: u32,
}

pub open spec fn seed_mint(contract_addr: String, plant: KomplePlant, recipient: String) -> AdminMint {
    AdminMint {
        contract_addr,
        collection_id: plant.collection_id,
        recipient,
        metadata_id: plant.metadata_id,
    }
}

/// `n` copies of the same seed mint (none when `n` is negative).
pub open spec fn seed_mints(
    contract_addr: String,
    plant: KomplePlant,
    recipient: String,
    n: int,
) -> Seq<AdminMint> {
    Seq::new(if n < 0 { 0 } else { n as nat }, |i: int| seed_mint(contract_addr, plant, recipient))
}

/// The mints of `seeds` seed tokens of `plant` for `recipient`, through the
/// configured mint module.
pub fn mint_seeds(
    plant: KomplePlant,
    recipient: String,
    seeds: i32,
    information: &ContractInformation,
) -> (r: Result<Vec<AdminMint>, ContractError>)
    ensures
        match information.komple_mint_addr {
            None => r == Err::<Vec<AdminMint>, ContractError>(
                ContractError::ExternalDependencyMissing,
            ),
            Some(addr) => r matches Ok(v) && v@ == seed_mints(addr, plant, recipient, seeds as int),
        },
{
    let contract_addr = match &information.komple_mint_addr {
        None => return Err(ContractError::ExternalDependencyMissing),
        Some(komple_mint_addr) => komple_mint_addr,
    };
    let ghost one = seed_mint(*contract_addr, plant, recipient);
    let mut messages: Vec<AdminMint> = Vec::new();
    let mut i: i32 = 0;
    while i < seeds
        invariant
            one == seed_mint(*contract_addr, plant, recipient),
            0 <= i,
            seeds >= 0 ==> i <= seeds,
            seeds < 0 ==> i == 0,
            messages@.len() == i,
            forall|k: int| 0 <= k < i ==> #[trigger] messages@[k] == one,
        decreases seeds - i,
    {
        let addr = contract_addr.clone();
        let to = recipient.clone();
        assert(addr == *contract_addr && to == recipient);
        messages.push(
            AdminMint {
                contract_addr: addr,
                collection_id: plant.collection_id,
                recipient: to,
                metadata_id: plant.metadata_id,
            },
        );
        assert(messages@[i as int] == one);
        i = i + 1;
    }
    assert(messages@ =~= seed_mints(
        information.komple_mint_addr.unwrap(),
        plant,
        recipient,
        seeds as int,
    ));
    Ok(messages)
}

/// Resolves a randomness job: the seeds to mint, between `MIN_RANDOM_SEEDS`
/// and `MAX_RANDOM_SEEDS` of them as the randomness decides.
pub fn noise_job(
    job: NoiseJob,
    randomness: [u8; 32],
    information: &ContractInformation,
) -> (r: Result<Vec<AdminMint>, ContractError>)
    ensures
        match job {
            NoiseJob::MintSeeds { plant, recipient } => match information.komple_mint_addr {
                None => r == Err::<Vec<AdminMint>, ContractError>(
                    ContractError::ExternalDependencyMissing,
                ),
                Some(addr) => r matches Ok(v) && v@ == seed_mints(
                    addr,
                    plant,
                    recipient,
                    int_in_range_of(randomness@, MIN_RANDOM_SEEDS as int, MAX_RANDOM_SEEDS as int),
                ) && MIN_RANDOM_SEEDS <= v@.len() <= MAX_RANDOM_SEEDS,
            },
        },
{
    match job {
        NoiseJob::MintSeeds { plant, recipient } => {
            let seeds = random_in_range(randomness, MIN_RANDOM_SEEDS, MAX_RANDOM_SEEDS);
            mint_seeds(plant, recipient, seeds, information)
        },
    }
}

/// The id of the next randomness job.
pub fn next_job_id(last_id: Option<u64>) -> (r: u64)
    requires
        last_id matches Some(n) ==> n < u64::MAX,
    ensures
        r == match last_id {
            Some(n) => n + 1,
            None => 1,
        },
{
    let last = match last_id {
        Some(n) => n,
        None => 0,
    };
    last + 1
}

// ---------------------------------------------------------------------------
// Harvest with its mint intent.
// ---------------------------------------------------------------------------

/// What the host does after a harvest.
#[derive(Debug, PartialEq, Eq)]
pub enum HarvestRoute {
    /// The plant carried no token reference: nothing to mint.
    Nothing,
    /// Mint these seed tokens now.
    Mint(Vec<AdminMint>),
    /// Store `job` under `job_id` and ask `proxy` for randomness.
    AwaitRandomness { proxy: String, job_id: u64, job: NoiseJob },
}

pub enum RouteView {
    Nothing,
    Mint(Seq<AdminMint>),
    AwaitRandomness { proxy: String, job_id: u64, job: NoiseJob },
}

impl View for HarvestRoute {
    type V = RouteView;

    open spec fn view(&self) -> RouteView {
        match self {
            HarvestRoute::Nothing => RouteView::Nothing,
            HarvestRoute::Mint(v) => RouteView::Mint(v@),
            HarvestRoute::AwaitRandomness { proxy, job_id, job } => RouteView::AwaitRandomness {
                proxy: *proxy,
                job_id: *job_id,
                job: *job,
            },
        }
    }
}

pub open spec fn next_job_id_spec(last_id: Option<u64>) -> u64 {
    match last_id {
        Some(n) => (n + 1) as u64,
        None => 1,
    }
}

/// The mint intent of a harvested plant: through the randomness proxy when
/// one is configured, else `DIRECT_SEEDS` seeds at once.
pub open spec fn route_spec(
    komple: Option<KomplePlant>,
    information: ContractInformation,
    nois_proxy: Option<String>,
    last_job_id: Option<u64>,
    sender: String,
) -> Result<RouteView, ContractError> {
    match komple {
        None => Ok(RouteView::Nothing),
        Some(plant) => match nois_proxy {
            Some(proxy) => Ok(
                RouteView::AwaitRandomness {
                    proxy,
                    job_id: next_job_id_spec(last_job_id),
                    job: NoiseJob::MintSeeds { plant, recipient: sender },
                },
            ),
            None => match information.komple_mint_addr {
                None => Err(ContractError::ExternalDependencyMissing),
                Some(addr) => Ok(
                    RouteView::Mint(seed_mints(addr, plant, sender, DIRECT_SEEDS as int)),
                ),
            },
        },
    }
}

/// A harvest by `sender`: the new grid, the harvested kind and the mint intent.
pub open spec fn harvest_plot_spec(
    g: Grid,
    x: usize,
    y: usize,
    block: u64,
    information: ContractInformation,
    nois_proxy: Option<String>,
    last_job_id: Option<u64>,
    sender: String,
) -> Result<(Grid, PlantType, RouteView), ContractError> {
    if !in_grid(g, x as int, y as int) {
        Err(ContractError::InvalidCoordinates { x, y })
    } else {
        match g[x as int][y as int].plant {
            None => Err(ContractError::PlantNotPresent { x, y }),
            Some(p) => match route_spec(p.komple, information, nois_proxy, last_job_id, sender) {
                Err(e) => Err(e),
                Ok(route) => match harvest_spec(g, x, y, block) {
                    Err(e) => Err(e),
                    Ok((g2, out)) => Ok((g2, out.0, route)),
                },
            },
        }
    }
}

/// Harvests the plant at `(x, y)` of `sender`'s farm, counts it in
/// `sender`'s points and returns the mint intent. On error neither the farm
/// nor the points change.
pub fn harvest_plot(
    farm: &mut FarmProfile,
    points: &mut Points,
    information: &ContractInformation,
    nois_proxy: &Option<String>,
    last_job_id: Option<u64>,
    sender: &String,
    x: usize,
    y: usize,
    block: u64,
) -> (r: Result<HarvestRoute, ContractError>)
    requires
        old(farm).wf(),
        old(farm).settled(block as int),
        old(points).wf(),
        old(points).score() < u64::MAX,
        last_job_id matches Some(n) ==> n < u64::MAX,
    ensures
        final(farm).wf(),
        final(farm).settled(block as int),
        final(points).wf(),
        final(points).addr == old(points).addr,
        match harvest_plot_spec(
            old(farm)@,
            x,
            y,
            block,
            *information,
            *nois_proxy,
            last_job_id,
            *sender,
        ) {
            Ok((g, kind, route)) => r matches Ok(rt) && rt@ == route && final(farm)@ == g
                && final(points).plants@ == old(points).plants@.update(
                kind_index(kind),
                (old(points).count(kind) + 1) as u64,
            ),
            Err(e) => r == Err::<HarvestRoute, ContractError>(e) && final(farm)@ == old(farm)@
                && final(points).plants@ == old(points).plants@,
        },
{
    let plot = match farm.get_plot(x, y) {
        Ok(s) => s,
        Err(e) => return Err(e),
    };
    let plant = match plot.plant {
        None => return Err(ContractError::PlantNotPresent { x, y }),
        Some(p) => p,
    };
    let route = match plant.komple {
        None => HarvestRoute::Nothing,
        Some(komple) => match nois_proxy {
            Some(proxy) => HarvestRoute::AwaitRandomness {
                proxy: proxy.clone(),
                job_id: next_job_id(last_job_id),
                job: NoiseJob::MintSeeds { plant: komple, recipient: sender.clone() },
            },
            None => match mint_seeds(komple, sender.clone(), DIRECT_SEEDS, information) {
                Ok(v) => HarvestRoute::Mint(v),
                Err(e) => return Err(e),
            },
        },
    };
    let harvested = match farm.harvest(x, y, block) {
        Ok(h) => h,
        Err(e) => return Err(e),
    };
    points.add(harvested.0);
    Ok(route)
}

// ---------------------------------------------------------------------------
// Profiles and administration.
// ---------------------------------------------------------------------------

/// A new farm for `sender`, unless one exists.
pub fn start(existing: &Option<FarmProfile>, sender: &String, block: u64) -> (r: Result<
    FarmProfile,
    ContractError,
>)
    ensures
        existing is Some ==> r == Err::<FarmProfile, ContractError>(
            ContractError::AlreadyExists { address: *sender },
        ),
        existing is None ==> (r matches Ok(f) && f@ == new_grid(block) && f.wf()),
{
    if existing.is_some() {
        return Err(ContractError::AlreadyExists { address: sender.clone() });
    }
    Ok(FarmProfile::new(block))
}

/// The farm of `address`, which must exist.
pub fn require_farm(farm: Option<FarmProfile>, address: &String) -> (r: Result<
    FarmProfile,
    ContractError,
>)
    ensures
        match farm {
            Some(f) => r == Ok::<FarmProfile, ContractError>(f),
            None => r == Err::<FarmProfile, ContractError>(
                ContractError::NotFound { address: *address },
            ),
        },
{
    match farm {
        Some(f) => Ok(f),
        None => Err(ContractError::NotFound { address: address.clone() }),
    }
}

/// Only the admin may pass.
pub fn admin_error_check(information: &ContractInformation, sender: &String) -> (r: Result<
    (),
    ContractError,
>)
    ensures
        r is Ok <==> information.admin@ == sender@,
        r is Err ==> r == Err::<(), ContractError>(ContractError::Unauthorized),
{
    if information.admin != *sender {
        return Err(ContractError::Unauthorized);
    }
    Ok(())
}

/// The stored configuration of a new contract: the admin is the one named,
/// else the sender.
pub fn contract_information(
    admin: Option<String>,
    komple_mint_addr: Option<String>,
    sender: String,
) -> (r: ContractInformation)
    ensures
        r.admin == match admin {
            Some(a) => a,
            None => sender,
        },
        r.komple_mint_addr == komple_mint_addr,
{
    let admin = match admin {
        Some(a) => a,
        None => sender,
    };
    ContractInformation { admin, komple_mint_addr }
}

// ---------------------------------------------------------------------------
// Seed tokens.
// ---------------------------------------------------------------------------

/// The id of the first collection at `sender`'s address.
pub fn collection_id_for(collections: &Vec<KompleCollection>, sender: &String) -> (r: Option<u32>)
    ensures
        r is None <==> forall|i: int|
            0 <= i < collections@.len() ==> (#[trigger] collections@[i]).addr@ != sender@,
        r matches Some(id) ==> exists|i: int|
            0 <= i < collections@.len() && (#[trigger] collections@[i]).addr@ == sender@
                && collections@[i].id == id && forall|j: int|
                0 <= j < i ==> (#[trigger] collections@[j]).addr@ != sender@,
{
    let mut i: usize = 0;
    while i < collections.len()
        invariant
            i <= collections@.len(),
            forall|j: int| 0 <= j < i ==> (#[trigger] collections@[j]).addr@ != sender@,
        decreases collections@.len() - i,
    {
        if collections[i].addr == *sender {
            return Some(collections[i].id);
        }
        i = i + 1;
    }
    None
}

/// The plant type named by the first `type` trait of a seed's metadata.
pub fn plant_type_from_traits(traits: &Vec<(String, String)>) -> (r: Result<
    PlantType,
    ContractError,
>)
    ensures
        (forall|i: int| 0 <= i < traits@.len() ==> (#[trigger] traits@[i]).0@ != "type"@)
            ==> r == Err::<PlantType, ContractError>(ContractError::MissingMetadataType),
        forall|i: int|
            0 <= i < traits@.len() && (#[trigger] traits@[i]).0@ == "type"@ && (forall|j: int|
                0 <= j < i ==> (#[trigger] traits@[j]).0@ != "type"@) ==> match r {
                Ok(k) => crate::farm::plant_name(k) == traits@[i].1@,
                Err(e) => e == (ContractError::UnknownPlant { name: e->name }) && e->name@
                    == traits@[i].1@ && traits@[i].1@ != crate::farm::plant_name(
                    PlantType::Sunflower,
                ) && traits@[i].1@ != crate::farm::plant_name(PlantType::Wheat),
            },
{
    let mut i: usize = 0;
    while i < traits.len()
        invariant
            i <= traits@.len(),
            forall|j: int| 0 <= j < i ==> (#[trigger] traits@[j]).0@ != "type"@,
        decreases traits@.len() - i,
    {
        if crate::farm::str_equals(traits[i].0.as_str(), "type") {
            return PlantType::from_str(traits[i].1.as_str());
        }
        i = i + 1;
    }
    Err(ContractError::MissingMetadataType)
}

} // verus!
