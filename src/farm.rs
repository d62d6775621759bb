use vstd::prelude::*;

use crate::error::ContractError;

verus! {

/// Ticks after which a tilled field with no plant turns back into meadow.
pub const FIELD_TURNS_MEADOW: u64 = 1000;

/// Ticks per growth stage of a sunflower.
pub const GROWTH_PERIOD_SUNFLOWER: u64 = 20;

/// Ticks per growth stage of wheat.
pub const GROWTH_PERIOD_WHEAT: u64 = 10;

/// Growth stages of a sunflower.
pub const STAGES_SUNFLOWER: u64 = 5;

/// Growth stages of wheat.
pub const STAGES_WHEAT: u64 = 4;

// ---------------------------------------------------------------------------
// Plant clock: growth as a function of time alone.
// ---------------------------------------------------------------------------

/// The growth stage at `now`: stage 1 begins at creation.
pub open spec fn stage_at(created_at: int, growth_period: int, now: int) -> int {
    (now - created_at) / growth_period + 1
}

/// A plant that missed watering for more than one stage boundary.
pub open spec fn dead_at(watered: int, created_at: int, growth_period: int, now: int) -> bool {
    watered + 1 < stage_at(created_at, growth_period, now)
}

/// Watering is accepted exactly once per elapsed stage.
pub open spec fn waterable_at(
    watered: int,
    stages: int,
    created_at: int,
    growth_period: int,
    now: int,
) -> bool {
    watered < stages && watered == stage_at(created_at, growth_period, now) - 1
}

/// Harvest needs the last stage reached with every stage watered.
pub open spec fn harvestable_at(
    watered: int,
    stages: int,
    created_at: int,
    growth_period: int,
    now: int,
) -> bool {
    stages == stage_at(created_at, growth_period, now) && watered == stages
}

// ---------------------------------------------------------------------------
// Species.
// ---------------------------------------------------------------------------

#[derive(Clone, Copy, Debug, PartialEq, Eq, Structural)]
pub enum SlotType {
    Meadow,
    Field,
}

#[derive(Clone, Copy, Debug, PartialEq, Eq, Hash, Structural)]
pub enum PlantType {
    Sunflower,
    Wheat,
}

/// Number of plant species.
pub const PLANT_KINDS: usize = 2;

/// The name by which a species is written.
pub open spec fn plant_name(kind: PlantType) -> Seq<char> {
    match kind {
        PlantType::Sunflower => seq!['s', 'u', 'n', 'f', 'l', 'o', 'w', 'e', 'r'],
        PlantType::Wheat => seq!['w', 'h', 'e', 'a', 't'],
    }
}

/// Growth stages of each species.
pub open spec fn stages_of(kind: PlantType) -> u64 {
    match kind {
        PlantType::Sunflower => STAGES_SUNFLOWER,
        PlantType::Wheat => STAGES_WHEAT,
    }
}

/// Ticks per stage of each species.
pub open spec fn growth_period_of(kind: PlantType) -> u64 {
    match kind {
        PlantType::Sunflower => GROWTH_PERIOD_SUNFLOWER,
        PlantType::Wheat => GROWTH_PERIOD_WHEAT,
    }
}

/// The position of each species in per-species tables.
pub open spec fn kind_index(kind: PlantType) -> int {
    match kind {
        PlantType::Sunflower => 0,
        PlantType::Wheat => 1,
    }
}

impl PlantType {
    /// The species written by `name`.
    pub fn from_str(name: &str) -> (r: Result<PlantType, ContractError>)
        ensures
            r matches Ok(k) ==> plant_name(k) == name@,
            r is Err <==> (name@ != plant_name(PlantType::Sunflower) && name@ != plant_name(
                PlantType::Wheat,
            )),
            r matches Err(e) ==> e == (ContractError::UnknownPlant { name: e->name })
                && e->name@ == name@,
    {
        proof {
            reveal_strlit("sunflower");
            reveal_strlit("wheat");
            assert("sunflower"@ =~= plant_name(PlantType::Sunflower));
            assert("wheat"@ =~= plant_name(PlantType::Wheat));
        }
        if str_equals(name, "sunflower") {
            Ok(PlantType::Sunflower)
        } else if str_equals(name, "wheat") {
            Ok(PlantType::Wheat)
        } else {
            Err(ContractError::UnknownPlant { name: name.to_string() })
        }
    }

    /// The name by which the species is written.
    pub fn to_string(&self) -> (r: String)
        ensures
            r@ == plant_name(*self),
    {
        match self {
            PlantType::Sunflower => {
                proof {
                    reveal_strlit("sunflower");
                    assert("sunflower"@ =~= plant_name(PlantType::Sunflower));
                }
                "sunflower".to_string()
            },
            PlantType::Wheat => {
                proof {
                    reveal_strlit("wheat");
                    assert("wheat"@ =~= plant_name(PlantType::Wheat));
                }
                "wheat".to_string()
            },
        }
    }

    /// Growth stages and ticks per stage of the species.
    pub fn growth_params(&self) -> (r: (u64, u64))
        ensures
            r.0 == stages_of(*self),
            r.1 == growth_period_of(*self),
    {
        match self {
            PlantType::Sunflower => (STAGES_SUNFLOWER, GROWTH_PERIOD_SUNFLOWER),
            PlantType::Wheat => (STAGES_WHEAT, GROWTH_PERIOD_WHEAT),
        }
    }

    /// The position of the species in per-species tables.
    pub fn index(&self) -> (r: usize)
        ensures
            r as int == kind_index(*self),
            r < PLANT_KINDS,
    {
        match self {
            PlantType::Sunflower => 0,
            PlantType::Wheat => 1,
        }
    }
}

/// Whether two strings hold the same characters.
pub(crate) fn str_equals(a: &str, b: &str) -> (r: bool)
    ensures
        r == (a@ == b@),
{
    let n = a.unicode_len();
    if n != b.unicode_len() {
        return false;
    }
    let mut i: usize = 0;
    while i < n
        invariant
            n == a@.len(),
            n == b@.len(),
            i <= n,
            forall|j: int| 0 <= j < i ==> a@[j] == b@[j],
        decreases n - i,
    {
        if a.get_char(i) != b.get_char(i) {
            return false;
        }
        i = i + 1;
    }
    assert(a@ =~= b@);
    true
}

// ---------------------------------------------------------------------------
// Plant.
// ---------------------------------------------------------------------------

/// The token collection and metadata from which a plant's seed was minted.
#[derive(Clone, Copy, Debug, PartialEq, Eq, Structural)]
pub struct KomplePlant {
    pub metadata_id: u32,
    pub collection_id: u32,
}

#[derive(Debug, PartialEq, Eq)]
pub struct Plant {
    pub kind: PlantType,
    pub stages: u64,
    pub growth_period: u64,
    pub created_at: u64,
    pub watered_at: Vec<u64>,
    pub komple: Option<KomplePlant>,
}

/// What a plant holds, with its watering history as a sequence.
pub struct PlantView {
    pub kind: PlantType,
    pub stages: u64,
    pub growth_period: u64,
    pub created_at: u64,
    pub watered_at: Seq<u64>,
    pub komple: Option<KomplePlant>,
}

impl View for Plant {
    type V = PlantView;

    open spec fn view(&self) -> PlantView {
        PlantView {
            kind: self.kind,
            stages: self.stages,
            growth_period: self.growth_period,
            created_at: self.created_at,
            watered_at: self.watered_at@,
            komple: self.komple,
        }
    }
}

impl PlantView {
    /// How many stages have been watered.
    pub open spec fn watered(self) -> int {
        self.watered_at.len() as int
    }

    pub open spec fn current_stage(self, now: int) -> int {
        stage_at(self.created_at as int, self.growth_period as int, now)
    }

    pub open spec fn is_dead(self, now: int) -> bool {
        dead_at(self.watered(), self.created_at as int, self.growth_period as int, now)
    }

    pub open spec fn can_water(self, now: int) -> bool {
        waterable_at(
            self.watered(),
            self.stages as int,
            self.created_at as int,
            self.growth_period as int,
            now,
        )
    }

    pub open spec fn can_harvest(self, now: int) -> bool {
        harvestable_at(
            self.watered(),
            self.stages as int,
            self.created_at as int,
            self.growth_period as int,
            now,
        )
    }

    /// A plant grows in stages of positive length, is watered at most once per
    /// stage, and its `i`-th watering falls in stage `i + 1`.
    pub open spec fn wf(self) -> bool {
        &&& self.growth_period > 0
        &&& self.watered_at.len() <= self.stages
        &&& forall|i: int|
            0 <= i < self.watered_at.len() ==> self.created_at <= #[trigger] self.watered_at[i]
                && self.current_stage(self.watered_at[i] as int) == i + 1
        &&& forall|i: int, j: int|
            0 <= i < j < self.watered_at.len() ==> self.watered_at[i] < self.watered_at[j]
    }
}

impl Clone for Plant {
    fn clone(&self) -> (r: Self)
        ensures
            r@ == self@,
    {
        let watered_at = self.watered_at.clone();
        assert(watered_at@ =~= self.watered_at@);
        Plant {
            kind: self.kind,
            stages: self.stages,
            growth_period: self.growth_period,
            created_at: self.created_at,
            watered_at,
            komple: self.komple,
        }
    }
}

impl Plant {
    /// The growth stage at `block`.
    pub fn get_current_stage(&self, block: u64) -> (r: u64)
        requires
            self.growth_period > 0,
            self.created_at <= block,
            self@.current_stage(block as int) <= u64::MAX,
        ensures
            r == self@.current_stage(block as int),
    {
        let passed_time = block - self.created_at;
        passed_time / self.growth_period + 1
    }

    pub fn is_dead(&self, block: u64) -> (r: bool)
        requires
            self.growth_period > 0,
            self.created_at <= block,
        ensures
            r == self@.is_dead(block as int),
    {
        let watered_stages = self.watered_at.len() as u64;
        let elapsed_stages = (block - self.created_at) / self.growth_period;
        watered_stages < elapsed_stages
    }

    pub fn can_water(&self, block: u64) -> (r: bool)
        requires
            self.growth_period > 0,
            self.created_at <= block,
        ensures
            r == self@.can_water(block as int),
    {
        let watered_stages = self.watered_at.len() as u64;
        let elapsed_stages = (block - self.created_at) / self.growth_period;
        watered_stages < self.stages && watered_stages == elapsed_stages
    }

    pub fn can_harvest(&self, block: u64) -> (r: bool)
        requires
            self.growth_period > 0,
            self.created_at <= block,
        ensures
            r == self@.can_harvest(block as int),
    {
        let watered_stages = self.watered_at.len() as u64;
        let elapsed_stages = (block - self.created_at) / self.growth_period;
        self.stages >= 1 && self.stages - 1 == elapsed_stages && watered_stages == self.stages
    }
}

// ---------------------------------------------------------------------------
// Slot.
// ---------------------------------------------------------------------------

#[derive(Debug, PartialEq, Eq)]
pub struct Slot {
    pub declared_type: SlotType,
    pub plant: Option<Plant>,
    pub created_at: u64,
}

pub struct SlotView {
    pub declared_type: SlotType,
    pub plant: Option<PlantView>,
    pub created_at: u64,
}

pub open spec fn plant_view(p: Option<Plant>) -> Option<PlantView> {
    match p {
        Some(plant) => Some(plant@),
        None => None,
    }
}

impl View for Slot {
    type V = SlotView;

    open spec fn view(&self) -> SlotView {
        SlotView {
            declared_type: self.declared_type,
            plant: plant_view(self.plant),
            created_at: self.created_at,
        }
    }
}

impl SlotView {
    /// A field left without a plant for too long counts as meadow.
    pub open spec fn turned_meadow(self, now: int) -> bool {
        self.declared_type == SlotType::Field && self.plant is None && now - self.created_at
            > FIELD_TURNS_MEADOW
    }

    pub open spec fn effective_type(self, now: int) -> SlotType {
        if self.turned_meadow(now) {
            SlotType::Meadow
        } else {
            self.declared_type
        }
    }

    pub open spec fn can_till(self, now: int) -> bool {
        match self.effective_type(now) {
            SlotType::Meadow => true,
            SlotType::Field => match self.plant {
                None => false,
                Some(p) => p.is_dead(now),
            },
        }
    }

    /// An empty field that accepts a seed.
    pub open spec fn can_plant(self, now: int) -> bool {
        self.effective_type(now) == SlotType::Field && self.plant is None
    }

    /// A meadow never holds a plant, and a plant is well formed.
    pub open spec fn wf(self) -> bool {
        &&& self.declared_type == SlotType::Meadow ==> self.plant is None
        &&& self.plant matches Some(p) ==> p.wf()
    }

    /// No timestamp of the slot lies after `now`.
    pub open spec fn settled(self, now: int) -> bool {
        &&& self.created_at <= now
        &&& self.plant matches Some(p) ==> p.created_at <= now
    }
}

impl Clone for Slot {
    fn clone(&self) -> (r: Self)
        ensures
            r@ == self@,
    {
        let plant = match &self.plant {
            Some(p) => Some(p.clone()),
            None => None,
        };
        Slot { declared_type: self.declared_type, plant, created_at: self.created_at }
    }
}

impl Slot {
    pub fn is_field_turned_meadow(&self, block: u64) -> (r: bool)
        requires
            self.created_at <= block,
        ensures
            r == self@.turned_meadow(block as int),
    {
        match self.declared_type {
            SlotType::Meadow => false,
            SlotType::Field => match &self.plant {
                None => block - self.created_at > FIELD_TURNS_MEADOW,
                Some(_) => false,
            },
        }
    }

    /// The slot's type once the idle rule is applied.
    pub fn get_real_type(&self, block: u64) -> (r: SlotType)
        requires
            self.created_at <= block,
        ensures
            r == self@.effective_type(block as int),
    {
        if self.is_field_turned_meadow(block) {
            return SlotType::Meadow;
        }
        self.declared_type
    }

    pub fn can_till(&self, block: u64) -> (r: bool)
        requires
            self@.wf(),
            self@.settled(block as int),
        ensures
            r == self@.can_till(block as int),
    {
        match self.get_real_type(block) {
            SlotType::Meadow => true,
            SlotType::Field => match &self.plant {
                None => false,
                Some(plant) => plant.is_dead(block),
            },
        }
    }
}

impl Plant {
    /// Whether the plant satisfies `PlantView::wf`.
    pub fn is_well_formed(&self) -> (r: bool)
        ensures
            r == self@.wf(),
    {
        if self.growth_period == 0 || self.watered_at.len() as u64 > self.stages {
            return false;
        }
        let n = self.watered_at.len();
        let mut i: usize = 0;
        while i < n
            invariant
                self.growth_period > 0,
                n == self.watered_at@.len(),
                i <= n,
                forall|k: int| 0 <= k < i ==> self.created_at <= #[trigger] self.watered_at@[k]
                    && self@.current_stage(self.watered_at@[k] as int) == k + 1,
                forall|a: int, b: int| 0 <= a < b < i ==> self.watered_at@[a] < self.watered_at@[b],
            decreases n - i,
        {
            let w = self.watered_at[i];
            if w < self.created_at || (w - self.created_at) / self.growth_period != i as u64 {
                return false;
            }
            if i > 0 && self.watered_at[i - 1] >= w {
                return false;
            }
            i = i + 1;
        }
        true
    }
}

impl Slot {
    /// Whether the slot satisfies `SlotView::wf`.
    pub fn is_well_formed(&self) -> (r: bool)
        ensures
            r == self@.wf(),
    {
        match &self.plant {
            None => true,
            Some(p) => self.declared_type == SlotType::Field && p.is_well_formed(),
        }
    }
}

} // verus!
