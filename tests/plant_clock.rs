use farm_template::farm::{KomplePlant, Plant, PlantType, Slot, SlotType};

fn wheat_at_zero(watered_at: Vec<u64>) -> Plant {
    Plant {
        kind: PlantType::Wheat,
        stages: 4,
        growth_period: 10,
        created_at: 0,
        watered_at,
        komple: None,
    }
}

#[test]
fn first_stage_waits_for_next_watering() {
    let plant = wheat_at_zero(vec![0]);
    assert_eq!(plant.get_current_stage(9), 1);
    assert!(!plant.can_water(9));
    assert!(!plant.can_harvest(9));
    assert!(!plant.is_dead(9));
    assert_eq!(plant.get_current_stage(10), 2);
    assert!(plant.can_water(10));
}

#[test]
fn missed_watering_kills_plant() {
    let plant = wheat_at_zero(vec![0]);
    assert_eq!(plant.get_current_stage(25), 3);
    assert_eq!(plant.watered_at.len(), 1);
    assert!(plant.is_dead(25));
    assert!(!plant.can_water(25));
    assert!(!plant.can_harvest(25));
}

#[test]
fn one_missed_boundary_is_not_yet_dead() {
    let plant = wheat_at_zero(vec![0]);
    assert_eq!(plant.get_current_stage(19), 2);
    assert!(!plant.is_dead(19));
    assert_eq!(plant.get_current_stage(20), 3);
    assert!(plant.is_dead(20));
}

#[test]
fn stage_starts_at_one_and_grows() {
    let plant = wheat_at_zero(vec![0]);
    assert_eq!(plant.get_current_stage(0), 1);
    let mut last = 1;
    for now in 0..100u64 {
        let stage = plant.get_current_stage(now);
        assert!(stage >= last);
        last = stage;
    }
    assert_eq!(plant.get_current_stage(99), 10);
}

#[test]
fn fully_watered_plant_is_harvestable_only() {
    let plant = wheat_at_zero(vec![0, 10, 20, 30]);
    for now in 30..40u64 {
        assert_eq!(plant.get_current_stage(now), 4);
        assert!(plant.can_harvest(now));
        assert!(!plant.can_water(now));
        assert!(!plant.is_dead(now));
    }
    assert!(!plant.can_harvest(40));
}

#[test]
fn at_most_one_state_holds() {
    for watered in 1..=4usize {
        let history: Vec<u64> = (0..watered as u64).map(|i| i * 10).collect();
        let plant = wheat_at_zero(history);
        for now in 0..80u64 {
            let flags = [plant.can_water(now), plant.can_harvest(now), plant.is_dead(now)];
            assert!(flags.iter().filter(|f| **f).count() <= 1);
        }
    }
}

#[test]
fn idle_field_turns_meadow() {
    let slot = Slot { declared_type: SlotType::Field, plant: None, created_at: 0 };
    assert!(!slot.is_field_turned_meadow(1000));
    assert_eq!(slot.get_real_type(1000), SlotType::Field);
    assert!(!slot.can_till(1000));
    assert!(slot.is_field_turned_meadow(1001));
    assert_eq!(slot.get_real_type(1001), SlotType::Meadow);
    assert!(slot.can_till(1001));
}

#[test]
fn field_with_plant_never_turns_meadow() {
    let slot = Slot {
        declared_type: SlotType::Field,
        plant: Some(wheat_at_zero(vec![0])),
        created_at: 0,
    };
    assert!(!slot.is_field_turned_meadow(5000));
    assert_eq!(slot.get_real_type(5000), SlotType::Field);
    // The plant is long dead, so the slot can be tilled again.
    assert!(slot.can_till(5000));
    assert!(!slot.can_till(5));
}

#[test]
fn meadow_can_be_tilled() {
    let slot = Slot { declared_type: SlotType::Meadow, plant: None, created_at: 3 };
    assert!(!slot.is_field_turned_meadow(3));
    assert_eq!(slot.get_real_type(3), SlotType::Meadow);
    assert!(slot.can_till(3));
}

#[test]
fn plant_names_round_trip() {
    assert_eq!(PlantType::from_str("sunflower"), Ok(PlantType::Sunflower));
    assert_eq!(PlantType::from_str("wheat"), Ok(PlantType::Wheat));
    assert_eq!(PlantType::Sunflower.to_string(), "sunflower");
    assert_eq!(PlantType::Wheat.to_string(), "wheat");
    assert_eq!(
        PlantType::from_str("rose"),
        Err(farm_template::ContractError::UnknownPlant { name: "rose".to_string() })
    );
    assert_eq!(PlantType::Wheat.growth_params(), (4, 10));
    assert_eq!(PlantType::Sunflower.growth_params(), (5, 20));
}

#[test]
fn well_formedness_checks() {
    assert!(wheat_at_zero(vec![0, 10, 25]).is_well_formed());
    assert!(!wheat_at_zero(vec![0, 5]).is_well_formed());
    assert!(!wheat_at_zero(vec![0, 10, 20, 30, 40]).is_well_formed());
    let mut no_period = wheat_at_zero(vec![0]);
    no_period.growth_period = 0;
    assert!(!no_period.is_well_formed());
    let meadow_with_plant = Slot {
        declared_type: SlotType::Meadow,
        plant: Some(wheat_at_zero(vec![0])),
        created_at: 0,
    };
    assert!(!meadow_with_plant.is_well_formed());
    let komple = KomplePlant { metadata_id: 1, collection_id: 2 };
    let mut p = wheat_at_zero(vec![0]);
    p.komple = Some(komple);
    assert_eq!(p.clone(), p);
}
