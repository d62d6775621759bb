use farm_template::contract::{
    admin_error_check, collection_id_for, contract_information, harvest_plot, mint_seeds,
    noise_job, plant_type_from_traits, require_farm, start, AdminMint, HarvestRoute,
};
use farm_template::farm::{KomplePlant, PlantType};
use farm_template::msg::{ContractInformation, KompleCollection};
use farm_template::state::{leaderboard, FarmProfile, NoiseJob, Points};
use farm_template::ContractError;

fn info(mint: Option<&str>) -> ContractInformation {
    ContractInformation { admin: "admin".to_string(), komple_mint_addr: mint.map(|m| m.to_string()) }
}

fn grown_wheat_farm(komple: Option<KomplePlant>) -> FarmProfile {
    let mut farm = FarmProfile::new(0);
    farm.till(0, 0, 0).unwrap();
    farm.plant_seed(0, 0, &PlantType::Wheat, komple, 0).unwrap();
    for now in [10, 20, 30] {
        farm.water_plant(0, 0, now).unwrap();
    }
    farm
}

#[test]
fn save_and_load_points() {
    let mut new_points = Points::new("123".to_string());
    new_points.add(PlantType::Sunflower);
    let res = leaderboard(&vec![new_points]);
    assert_eq!(res, vec![("123".to_string(), 1)])
}

#[test]
fn points_count_per_kind() {
    let mut points = Points::new("alice".to_string());
    assert_eq!(points.total(), 0);
    points.add(PlantType::Wheat);
    points.add(PlantType::Wheat);
    points.add(PlantType::Sunflower);
    assert_eq!(points.plants[PlantType::Wheat.index()], 2);
    assert_eq!(points.plants[PlantType::Sunflower.index()], 1);
    assert_eq!(points.total(), 3);
}

#[test]
fn leaderboard_orders_by_total_and_keeps_ties_in_order() {
    let mut a = Points::new("a".to_string());
    let mut b = Points::new("b".to_string());
    let c = Points::new("c".to_string());
    let mut d = Points::new("d".to_string());
    a.add(PlantType::Wheat);
    b.add(PlantType::Wheat);
    b.add(PlantType::Sunflower);
    d.add(PlantType::Sunflower);
    let board = leaderboard(&vec![a, b, c, d]);
    assert_eq!(
        board,
        vec![
            ("b".to_string(), 2),
            ("a".to_string(), 1),
            ("d".to_string(), 1),
            ("c".to_string(), 0)
        ]
    );
    assert!(leaderboard(&vec![]).is_empty());
}

#[test]
fn leaderboard_keeps_at_most_one_hundred() {
    let mut entries = vec![];
    for i in 0..150u64 {
        let mut p = Points::new(format!("owner{}", i));
        for _ in 0..(i % 7) {
            p.add(PlantType::Wheat);
        }
        entries.push(p);
    }
    let board = leaderboard(&entries);
    assert_eq!(board.len(), 100);
    assert_eq!(board[0], ("owner6".to_string(), 6));
    for pair in board.windows(2) {
        assert!(pair[0].1 >= pair[1].1);
    }
}

#[test]
fn harvest_counts_for_the_owner_only() {
    let komple = Some(KomplePlant { metadata_id: 1, collection_id: 2 });
    let mut farm = grown_wheat_farm(komple);
    let mut alice = Points::new("alice".to_string());
    let mut bob = Points::new("bob".to_string());
    bob.add(PlantType::Sunflower);
    let bob_before = bob.clone();
    let route = harvest_plot(
        &mut farm,
        &mut alice,
        &info(Some("mint")),
        &None,
        None,
        &"alice".to_string(),
        0,
        0,
        30,
    )
    .unwrap();
    assert_eq!(alice.plants[PlantType::Wheat.index()], 1);
    assert_eq!(alice.plants[PlantType::Sunflower.index()], 0);
    assert_eq!(alice.total(), 1);
    assert_eq!(bob, bob_before);
    let one = AdminMint {
        contract_addr: "mint".to_string(),
        collection_id: 2,
        recipient: "alice".to_string(),
        metadata_id: 1,
    };
    assert_eq!(route, HarvestRoute::Mint(vec![one.clone(), one]));
    assert!(farm.get_plot(0, 0).unwrap().plant.is_none());
}

#[test]
fn harvest_through_randomness_proxy() {
    let komple = KomplePlant { metadata_id: 1, collection_id: 2 };
    let mut farm = grown_wheat_farm(Some(komple));
    let mut points = Points::new("alice".to_string());
    let route = harvest_plot(
        &mut farm,
        &mut points,
        &info(None),
        &Some("proxy".to_string()),
        Some(6),
        &"alice".to_string(),
        0,
        0,
        31,
    )
    .unwrap();
    assert_eq!(
        route,
        HarvestRoute::AwaitRandomness {
            proxy: "proxy".to_string(),
            job_id: 7,
            job: NoiseJob::MintSeeds { plant: komple, recipient: "alice".to_string() },
        }
    );
    assert_eq!(points.total(), 1);
}

#[test]
fn harvest_without_reference_mints_nothing() {
    let mut farm = grown_wheat_farm(None);
    let mut points = Points::new("alice".to_string());
    let route = harvest_plot(
        &mut farm,
        &mut points,
        &info(None),
        &None,
        None,
        &"alice".to_string(),
        0,
        0,
        30,
    );
    assert_eq!(route, Ok(HarvestRoute::Nothing));
    assert_eq!(points.total(), 1);
}

#[test]
fn failed_harvest_changes_nothing() {
    let komple = Some(KomplePlant { metadata_id: 1, collection_id: 2 });
    let mut farm = grown_wheat_farm(komple);
    let before = farm.plots().clone();
    let mut points = Points::new("alice".to_string());
    let missing = harvest_plot(
        &mut farm,
        &mut points,
        &info(None),
        &None,
        None,
        &"alice".to_string(),
        0,
        0,
        30,
    );
    assert_eq!(missing, Err(ContractError::ExternalDependencyMissing));
    let early = harvest_plot(
        &mut farm,
        &mut points,
        &info(Some("mint")),
        &None,
        None,
        &"alice".to_string(),
        0,
        0,
        29,
    );
    assert_eq!(
        early,
        Err(ContractError::PlantNotReady {
            x: 0,
            y: 0,
            reason: farm_template::error::NotReadyReason::NotGrown
        })
    );
    let empty = harvest_plot(
        &mut farm,
        &mut points,
        &info(Some("mint")),
        &None,
        None,
        &"alice".to_string(),
        1,
        1,
        30,
    );
    assert_eq!(empty, Err(ContractError::PlantNotPresent { x: 1, y: 1 }));
    assert_eq!(farm.plots(), &before);
    assert_eq!(points.total(), 0);
}

#[test]
fn mint_seeds_copies_one_mint() {
    let plant = KomplePlant { metadata_id: 4, collection_id: 9 };
    let mints = mint_seeds(plant, "bob".to_string(), 3, &info(Some("mint"))).unwrap();
    assert_eq!(mints.len(), 3);
    for m in &mints {
        assert_eq!(
            m,
            &AdminMint {
                contract_addr: "mint".to_string(),
                collection_id: 9,
                recipient: "bob".to_string(),
                metadata_id: 4
            }
        );
    }
    assert!(mint_seeds(plant, "bob".to_string(), -1, &info(Some("mint"))).unwrap().is_empty());
    assert_eq!(
        mint_seeds(plant, "bob".to_string(), 2, &info(None)),
        Err(ContractError::ExternalDependencyMissing)
    );
}

#[test]
fn randomness_decides_seed_count() {
    let plant = KomplePlant { metadata_id: 4, collection_id: 9 };
    let mut seen = std::collections::BTreeSet::new();
    for b in 0..64u8 {
        let randomness = [b; 32];
        let job = NoiseJob::MintSeeds { plant, recipient: "bob".to_string() };
        let mints = noise_job(job, randomness, &info(Some("mint"))).unwrap();
        let expected = nois::int_in_range(randomness, 2, 5);
        assert_eq!(mints.len() as i32, expected);
        assert!((2..=5).contains(&mints.len()));
        seen.insert(mints.len());
    }
    assert!(seen.len() > 1);
    let job = NoiseJob::MintSeeds { plant, recipient: "bob".to_string() };
    assert_eq!(noise_job(job, [1; 32], &info(None)), Err(ContractError::ExternalDependencyMissing));
}

#[test]
fn proper_initialization() {
    let information = contract_information(None, None, "creator".to_string());
    assert_eq!(information.admin, "creator");
    let named = contract_information(Some("admin".to_string()), None, "creator".to_string());
    assert_eq!(named.admin, "admin");
}

#[test]
#[should_panic(expected = "Unauthorized")]
fn unauthorized_config_update() {
    let information = info(Some("komple_mint"));
    admin_error_check(&information, &"non-admin".to_string()).unwrap();
}

#[test]
fn authorized_config_update() {
    let information = info(Some("komple_mint"));
    assert_eq!(admin_error_check(&information, &"admin".to_string()), Ok(()));
    let updated = ContractInformation {
        admin: "new-admin".to_string(),
        komple_mint_addr: Some("new-komple-mint".to_string()),
    };
    assert_eq!(
        updated,
        ContractInformation {
            admin: "new-admin".to_string(),
            komple_mint_addr: Some("new-komple-mint".to_string())
        }
    )
}

#[test]
fn authorized_collection() {
    let collections =
        vec![KompleCollection { addr: "collection_addr".to_string(), id: 1 }];
    let id = collection_id_for(&collections, &"collection_addr".to_string());
    assert_eq!(id, Some(1));
    let traits = vec![("type".to_string(), "wheat".to_string())];
    let kind = plant_type_from_traits(&traits).unwrap();
    assert_eq!(kind, PlantType::Wheat);
    let mut farm = start(&None, &"nft_owner".to_string(), 0).unwrap();
    farm.till(0, 0, 0).unwrap();
    let komple = KomplePlant { metadata_id: 1, collection_id: id.unwrap() };
    assert_eq!(farm.plant_seed(0, 0, &kind, Some(komple), 0), Ok(()));
}

#[test]
fn unknown_collection_and_bad_metadata() {
    let collections = vec![KompleCollection { addr: "collection".to_string(), id: 1 }];
    assert_eq!(collection_id_for(&collections, &"collection_addr".to_string()), None);
    assert_eq!(plant_type_from_traits(&vec![]), Err(ContractError::MissingMetadataType));
    assert_eq!(
        plant_type_from_traits(&vec![
            ("color".to_string(), "red".to_string()),
            ("type".to_string(), "rose".to_string()),
            ("type".to_string(), "wheat".to_string()),
        ]),
        Err(ContractError::UnknownPlant { name: "rose".to_string() })
    );
}

#[test]
fn start_and_require_farm() {
    let existing = Some(FarmProfile::new(0));
    assert_eq!(
        start(&existing, &"alice".to_string(), 1),
        Err(ContractError::AlreadyExists { address: "alice".to_string() })
    );
    assert_eq!(
        require_farm(None, &"bob".to_string()),
        Err(ContractError::NotFound { address: "bob".to_string() })
    );
    assert!(require_farm(existing, &"alice".to_string()).is_ok());
    assert_eq!(farm_template::contract::next_job_id(None), 1);
    assert_eq!(farm_template::contract::next_job_id(Some(41)), 42);
}
