use vstd::arithmetic::div_mod::lemma_div_is_ordered;
use vstd::prelude::*;

use crate::error::{ContractError, NotReadyReason};
use crate::farm::{
    growth_period_of, kind_index, stages_of, KomplePlant, Plant, PlantType, PlantView, Slot,
    SlotType, SlotView, PLANT_KINDS,
};

verus! {

/// Rows and columns of a new farm.
pub const FARM_SIZE: usize = 9;

// ---------------------------------------------------------------------------
// Fresh slots and plants.
// ---------------------------------------------------------------------------

pub open spec fn meadow_slot(now: u64) -> SlotView {
    SlotView { declared_type: SlotType::Meadow, plant: None, created_at: now }
}

pub open spec fn field_slot(now: u64) -> SlotView {
    SlotView { declared_type: SlotType::Field, plant: None, created_at: now }
}

/// A plant put in the ground at `now`: planting counts as its first watering.
pub open spec fn new_plant(kind: PlantType, komple: Option<KomplePlant>, now: u64) -> PlantView {
    PlantView {
        kind,
        stages: stages_of(kind),
        growth_period: growth_period_of(kind),
        created_at: now,
        watered_at: seq![now],
        komple,
    }
}

/// `p` with one more watering, at `now`.
pub open spec fn watered_plant(p: PlantView, now: u64) -> PlantView {
    PlantView { watered_at: p.watered_at.push(now), ..p }
}

fn create_meadow_plot(block: u64) -> (r: Slot)
    ensures
        r@ == meadow_slot(block),
{
    Slot { declared_type: SlotType::Meadow, plant: None, created_at: block }
}

fn create_field_plot(block: u64) -> (r: Slot)
    ensures
        r@ == field_slot(block),
{
    Slot { declared_type: SlotType::Field, plant: None, created_at: block }
}

fn create_plant(plant_type: &PlantType, komple: Option<KomplePlant>, block: u64) -> (r: Plant)
    ensures
        r@ == new_plant(*plant_type, komple, block),
{
    let (stages, growth_period) = plant_type.growth_params();
    let watered_at = vec![block];
    assert(watered_at@ =~= seq![block]);
    Plant { kind: *plant_type, stages, growth_period, created_at: block, watered_at, komple }
}

// ---------------------------------------------------------------------------
// The grid operations, as functions from grid to next grid or error.
// ---------------------------------------------------------------------------

pub type Grid = Seq<Seq<SlotView>>;

/// Why watering `p` at `now` is refused, when it is.
pub open spec fn water_refusal(p: PlantView, now: int) -> NotReadyReason {
    if p.can_harvest(now) {
        NotReadyReason::FullyGrown
    } else if p.is_dead(now) {
        NotReadyReason::Dead
    } else {
        NotReadyReason::OutOfStep
    }
}

/// Tilling turns meadow, or a field with a dead plant, into an empty field.
pub open spec fn till_spec(g: Grid, x: usize, y: usize, now: u64) -> Result<Grid, ContractError> {
    if !in_grid(g, x as int, y as int) {
        Err(ContractError::InvalidCoordinates { x, y })
    } else if !g[x as int][y as int].can_till(now as int) {
        Err(ContractError::InvalidSlotState { x, y })
    } else {
        Ok(with_slot(g, x as int, y as int, field_slot(now)))
    }
}

/// Planting puts a new plant on an empty field.
pub open spec fn plant_spec(
    g: Grid,
    x: usize,
    y: usize,
    kind: PlantType,
    komple: Option<KomplePlant>,
    now: u64,
) -> Result<Grid, ContractError> {
    if !in_grid(g, x as int, y as int) {
        Err(ContractError::InvalidCoordinates { x, y })
    } else if !g[x as int][y as int].can_plant(now as int) {
        Err(ContractError::InvalidSlotState { x, y })
    } else {
        Ok(
            with_slot(
                g,
                x as int,
                y as int,
                SlotView { plant: Some(new_plant(kind, komple, now)), ..g[x as int][y as int] },
            ),
        )
    }
}

/// Watering records `now` in the plant's history, once per stage.
pub open spec fn water_spec(g: Grid, x: usize, y: usize, now: u64) -> Result<Grid, ContractError> {
    if !in_grid(g, x as int, y as int) {
        Err(ContractError::InvalidCoordinates { x, y })
    } else {
        match g[x as int][y as int].plant {
            None => Err(ContractError::PlantNotPresent { x, y }),
            Some(p) => if p.can_water(now as int) {
                Ok(
                    with_slot(
                        g,
                        x as int,
                        y as int,
                        SlotView {
                            plant: Some(watered_plant(p, now)),
                            ..g[x as int][y as int]
                        },
                    ),
                )
            } else {
                Err(ContractError::PlantNotReady { x, y, reason: water_refusal(p, now as int) })
            },
        }
    }
}

/// Harvesting a grown plant yields its kind and token reference and leaves
/// a freshly tilled field.
pub open spec fn harvest_spec(g: Grid, x: usize, y: usize, now: u64) -> Result<
    (Grid, (PlantType, Option<KomplePlant>)),
    ContractError,
> {
    if !in_grid(g, x as int, y as int) {
        Err(ContractError::InvalidCoordinates { x, y })
    } else {
        match g[x as int][y as int].plant {
            None => Err(ContractError::PlantNotPresent { x, y }),
            Some(p) => if p.can_harvest(now as int) {
                Ok((with_slot(g, x as int, y as int, field_slot(now)), (p.kind, p.komple)))
            } else {
                Err(
                    ContractError::PlantNotReady { x, y, reason: NotReadyReason::NotGrown },
                )
            },
        }
    }
}

proof fn lemma_with_slot_keeps_wf(g: Grid, x: int, y: int, s: SlotView, now: int)
    requires
        grid_wf(g),
        grid_settled(g, now),
        in_grid(g, x, y),
        s.wf(),
        s.settled(now),
    ensures
        grid_wf(with_slot(g, x, y, s)),
        grid_settled(with_slot(g, x, y, s), now),
{
    let h = with_slot(g, x, y, s);
    assert forall|i: int| 0 <= i < h.len() implies (#[trigger] h[i]).len() == h.len() by {
        assert(g[i].len() == g.len());
    }
    assert forall|i: int, j: int| in_grid(h, i, j) implies (#[trigger] h[i][j]).wf() && h[i][j].settled(now) by {
        if i != x || j != y {
            assert(in_grid(g, i, j));
            assert(h[i][j] == g[i][j]);
        }
    }
}

proof fn lemma_new_plant_wf(kind: PlantType, komple: Option<KomplePlant>, now: u64)
    ensures
        new_plant(kind, komple, now).wf(),
{
    let p = new_plant(kind, komple, now);
    assert(p.current_stage(now as int) == 1);
}

proof fn lemma_watered_plant_wf(p: PlantView, now: u64)
    requires
        p.wf(),
        p.created_at <= now,
        p.can_water(now as int),
    ensures
        watered_plant(p, now).wf(),
{
    let q = watered_plant(p, now);
    let n = p.watered_at.len() as int;
    assert forall|i: int| 0 <= i < n implies p.watered_at[i] < now by {
        if now <= p.watered_at[i] {
            lemma_div_is_ordered(
                now - p.created_at,
                p.watered_at[i] - p.created_at,
                p.growth_period as int,
            );
        }
    }
    assert forall|i: int| 0 <= i < q.watered_at.len() implies p.created_at <= #[trigger] q.watered_at[i]
        && q.current_stage(q.watered_at[i] as int) == i + 1 by {
        if i < n {
            assert(q.watered_at[i] == p.watered_at[i]);
        }
    }
}

// ---------------------------------------------------------------------------
// The grid.
// ---------------------------------------------------------------------------

/// A new farm: `FARM_SIZE` rows of `FARM_SIZE` meadow slots created at `now`.
pub open spec fn new_grid(now: u64) -> Grid {
    Seq::new(FARM_SIZE as nat, |i: int| Seq::new(FARM_SIZE as nat, |j: int| meadow_slot(now)))
}

pub open spec fn in_grid(g: Seq<Seq<SlotView>>, x: int, y: int) -> bool {
    0 <= x < g.len() && 0 <= y < g[x].len()
}

/// `g` with the slot at `(x, y)` replaced by `s`.
pub open spec fn with_slot(g: Seq<Seq<SlotView>>, x: int, y: int, s: SlotView) -> Seq<
    Seq<SlotView>,
> {
    g.update(x, g[x].update(y, s))
}

/// A square grid of well-formed slots.
pub open spec fn grid_wf(g: Seq<Seq<SlotView>>) -> bool {
    &&& forall|i: int| 0 <= i < g.len() ==> (#[trigger] g[i]).len() == g.len()
    &&& forall|i: int, j: int| in_grid(g, i, j) ==> (#[trigger] g[i][j]).wf()
}

/// No timestamp in the grid lies after `now`.
pub open spec fn grid_settled(g: Seq<Seq<SlotView>>, now: int) -> bool {
    forall|i: int, j: int| in_grid(g, i, j) ==> (#[trigger] g[i][j]).settled(now)
}

#[derive(Debug, PartialEq, Eq)]
pub struct FarmProfile {
    plots: Vec<Vec<Slot>>,
}

pub open spec fn row_view(row: Vec<Slot>) -> Seq<SlotView> {
    row@.map_values(|s: Slot| s@)
}

/// The grid that rows of slots hold.
pub open spec fn grid_of(plots: Seq<Vec<Slot>>) -> Grid {
    plots.map_values(|row: Vec<Slot>| row_view(row))
}

impl View for FarmProfile {
    type V = Seq<Seq<SlotView>>;

    closed spec fn view(&self) -> Seq<Seq<SlotView>> {
        grid_of(self.plots@)
    }
}

impl FarmProfile {
    pub open spec fn wf(&self) -> bool {
        grid_wf(self@)
    }

    pub open spec fn settled(&self, now: int) -> bool {
        grid_settled(self@, now)
    }

    /// A square grid of meadow, every slot created at `block`.
    pub fn new(block: u64) -> (r: Self)
        ensures
            r@ == new_grid(block),
            r.wf(),
    {
        let mut plots: Vec<Vec<Slot>> = Vec::new();
        let mut i: usize = 0;
        while i < FARM_SIZE
            invariant
                i <= FARM_SIZE,
                plots@.len() == i,
                forall|k: int| 0 <= k < i ==> row_view(#[trigger] plots@[k]) == Seq::new(FARM_SIZE as nat, |j: int| meadow_slot(block)),
            decreases FARM_SIZE - i,
        {
            let mut row: Vec<Slot> = Vec::new();
            let mut j: usize = 0;
            while j < FARM_SIZE
                invariant
                    j <= FARM_SIZE,
                    row@.len() == j,
                    forall|k: int| 0 <= k < j ==> (#[trigger] row@[k])@ == meadow_slot(block),
                decreases FARM_SIZE - j,
            {
                row.push(create_meadow_plot(block));
                j = j + 1;
            }
            assert(row_view(row) =~= Seq::new(FARM_SIZE as nat, |j: int| meadow_slot(block)));
            plots.push(row);
            i = i + 1;
        }
        let r = FarmProfile { plots };
        assert(r@ =~= Seq::new(FARM_SIZE as nat, |i: int| Seq::new(FARM_SIZE as nat, |j: int| meadow_slot(block))));
        r
    }

    /// Rows of the grid.
    pub fn get_size(&self) -> (r: usize)
        ensures
            r == self@.len(),
    {
        self.plots.len()
    }

    /// The slot at `(x, y)`.
    pub fn get_plot(&self, x: usize, y: usize) -> (r: Result<Slot, ContractError>)
        ensures
            in_grid(self@, x as int, y as int) ==> (r matches Ok(s) && s@ == self@[x as int][y as int]),
            !in_grid(self@, x as int, y as int) ==> r == Err::<Slot, ContractError>(ContractError::InvalidCoordinates { x, y }),
    {
        if x >= self.plots.len() || y >= self.plots[x].len() {
            return Err(ContractError::InvalidCoordinates { x, y });
        }
        Ok(self.plots[x][y].clone())
    }

    /// Replaces the slot at `(x, y)`.
    pub fn set_plot(&mut self, x: usize, y: usize, value: Slot)
        requires
            in_grid(old(self)@, x as int, y as int),
        ensures
            final(self)@ == with_slot(old(self)@, x as int, y as int, value@),
    {
        let ghost v = value@;
        self.plots[x][y] = value;
        assert(row_view(self.plots@[x as int]) =~= old(self)@[x as int].update(y as int, v));
        assert(self@ =~= with_slot(old(self)@, x as int, y as int, v));
    }
    /// The slots, row by row.
    pub fn plots(&self) -> (r: &Vec<Vec<Slot>>)
        ensures
            grid_of(r@) == self@,
    {
        &self.plots
    }

    /// A farm over `plots`, if they form a square grid of well-formed slots.
    pub fn from_plots(plots: Vec<Vec<Slot>>) -> (r: Option<FarmProfile>)
        ensures
            r is Some <==> grid_wf(grid_of(plots@)),
            r matches Some(f) ==> f@ == grid_of(plots@),
    {
        let ghost input = plots@;
        let f = FarmProfile { plots };
        let ghost g = f@;
        assert(g == grid_of(input));
        let n = f.plots.len();
        let mut i: usize = 0;
        while i < n
            invariant
                n == g.len(),
                g == f@,
                g == grid_of(input),
                input == plots@,
                i <= n,
                forall|k: int| 0 <= k < i ==> (#[trigger] g[k]).len() == g.len(),
                forall|k: int, j: int| 0 <= k < i && in_grid(g, k, j) ==> (#[trigger] g[k][j]).wf(),
            decreases n - i,
        {
            let row = &f.plots[i];
            assert(g[i as int] == row_view(*row));
            if row.len() != n {
                assert(g[i as int].len() != g.len());
                return None;
            }
            let mut j: usize = 0;
            while j < n
                invariant
                    n == g.len(),
                    g == f@,
                    g == grid_of(input),
                    input == plots@,
                input == plots@,
                    i < n,
                    j <= n,
                    row@.len() == n,
                    g[i as int] == row_view(*row),
                    forall|l: int| 0 <= l < j ==> (#[trigger] g[i as int][l]).wf(),
                decreases n - j,
            {
                assert(g[i as int][j as int] == row[j as int]@);
                if !row[j].is_well_formed() {
                    assert(in_grid(g, i as int, j as int) && !g[i as int][j as int].wf());
                    return None;
                }
                j = j + 1;
            }
            i = i + 1;
        }
        Some(f)
    }

    /// Whether no timestamp in the farm lies after `now`.
    pub fn is_settled(&self, now: u64) -> (r: bool)
        ensures
            r == self.settled(now as int),
    {
        let ghost g = self@;
        let n = self.plots.len();
        let mut i: usize = 0;
        while i < n
            invariant
                n == g.len(),
                g == self@,
                i <= n,
                forall|k: int, j: int| 0 <= k < i && in_grid(g, k, j) ==> (#[trigger] g[k][j]).settled(now as int),
            decreases n - i,
        {
            let row = &self.plots[i];
            assert(g[i as int] == row_view(*row));
            let m = row.len();
            let mut j: usize = 0;
            while j < m
                invariant
                    n == g.len(),
                    g == self@,
                    i < n,
                    j <= m,
                    m == row@.len(),
                    g[i as int] == row_view(*row),
                    forall|l: int| 0 <= l < j ==> (#[trigger] g[i as int][l]).settled(now as int),
                decreases m - j,
            {
                let slot = &row[j];
                assert(g[i as int][j as int] == slot@);
                if slot.created_at > now {
                    return false;
                }
                match &slot.plant {
                    Some(p) => if p.created_at > now {
                        return false;
                    },
                    None => {},
                }
                j = j + 1;
            }
            i = i + 1;
        }
        true
    }

    /// Tills the slot at `(x, y)`.
    pub fn till(&mut self, x: usize, y: usize, block: u64) -> (r: Result<(), ContractError>)
        requires
            old(self).wf(),
            old(self).settled(block as int),
        ensures
            final(self).wf(),
            final(self).settled(block as int),
            match till_spec(old(self)@, x, y, block) {
                Ok(g) => r is Ok && final(self)@ == g,
                Err(e) => r == Err::<(), ContractError>(e) && final(self)@ == old(self)@,
            },
    {
        let plot = match self.get_plot(x, y) {
            Ok(s) => s,
            Err(e) => return Err(e),
        };
        if !plot.can_till(block) {
            return Err(ContractError::InvalidSlotState { x, y });
        }
        proof {
            lemma_with_slot_keeps_wf(self@, x as int, y as int, field_slot(block), block as int);
        }
        self.set_plot(x, y, create_field_plot(block));
        Ok(())
    }

    /// Puts a new plant of `plant_type` on the empty field at `(x, y)`.
    pub fn plant_seed(
        &mut self,
        x: usize,
        y: usize,
        plant_type: &PlantType,
        komple: Option<KomplePlant>,
        block: u64,
    ) -> (r: Result<(), ContractError>)
        requires
            old(self).wf(),
            old(self).settled(block as int),
        ensures
            final(self).wf(),
            final(self).settled(block as int),
            match plant_spec(old(self)@, x, y, *plant_type, komple, block) {
                Ok(g) => r is Ok && final(self)@ == g,
                Err(e) => r == Err::<(), ContractError>(e) && final(self)@ == old(self)@,
            },
    {
        let plot = match self.get_plot(x, y) {
            Ok(s) => s,
            Err(e) => return Err(e),
        };
        if plot.get_real_type(block) != SlotType::Field || plot.plant.is_some() {
            return Err(ContractError::InvalidSlotState { x, y });
        }
        let plant = create_plant(plant_type, komple, block);
        let slot = Slot { declared_type: plot.declared_type, plant: Some(plant), created_at: plot.created_at };
        proof {
            lemma_new_plant_wf(*plant_type, komple, block);
            lemma_with_slot_keeps_wf(self@, x as int, y as int, slot@, block as int);
        }
        self.set_plot(x, y, slot);
        Ok(())
    }

    /// Waters the plant at `(x, y)`.
    pub fn water_plant(&mut self, x: usize, y: usize, block: u64) -> (r: Result<(), ContractError>)
        requires
            old(self).wf(),
            old(self).settled(block as int),
        ensures
            final(self).wf(),
            final(self).settled(block as int),
            match water_spec(old(self)@, x, y, block) {
                Ok(g) => r is Ok && final(self)@ == g,
                Err(e) => r == Err::<(), ContractError>(e) && final(self)@ == old(self)@,
            },
    {
        let plot = match self.get_plot(x, y) {
            Ok(s) => s,
            Err(e) => return Err(e),
        };
        let declared_type = plot.declared_type;
        let created_at = plot.created_at;
        match plot.plant {
            None => Err(ContractError::PlantNotPresent { x, y }),
            Some(plant) => {
                if !plant.can_water(block) {
                    if plant.can_harvest(block) {
                        return Err(
                            ContractError::PlantNotReady { x, y, reason: NotReadyReason::FullyGrown },
                        );
                    }
                    if plant.is_dead(block) {
                        return Err(
                            ContractError::PlantNotReady { x, y, reason: NotReadyReason::Dead },
                        );
                    }
                    return Err(
                        ContractError::PlantNotReady { x, y, reason: NotReadyReason::OutOfStep },
                    );
                }
                let ghost before = plant@;
                let mut updated = plant;
                updated.watered_at.push(block);
                assert(updated@ == watered_plant(before, block));
                let slot = Slot { declared_type, plant: Some(updated), created_at };
                proof {
                    lemma_watered_plant_wf(before, block);
                    lemma_with_slot_keeps_wf(self@, x as int, y as int, slot@, block as int);
                }
                self.set_plot(x, y, slot);
                Ok(())
            },
        }
    }

    /// Harvests the grown plant at `(x, y)`, leaving an empty field.
    pub fn harvest(&mut self, x: usize, y: usize, block: u64) -> (r: Result<
        (PlantType, Option<KomplePlant>),
        ContractError,
    >)
        requires
            old(self).wf(),
            old(self).settled(block as int),
        ensures
            final(self).wf(),
            final(self).settled(block as int),
            match harvest_spec(old(self)@, x, y, block) {
                Ok((g, out)) => r == Ok::<(PlantType, Option<KomplePlant>), ContractError>(out)
                    && final(self)@ == g,
                Err(e) => r == Err::<(PlantType, Option<KomplePlant>), ContractError>(e)
                    && final(self)@ == old(self)@,
            },
    {
        let plot = match self.get_plot(x, y) {
            Ok(s) => s,
            Err(e) => return Err(e),
        };
        match plot.plant {
            None => Err(ContractError::PlantNotPresent { x, y }),
            Some(plant) => {
                if !plant.can_harvest(block) {
                    return Err(
                        ContractError::PlantNotReady { x, y, reason: NotReadyReason::NotGrown },
                    );
                }
                proof {
                    lemma_with_slot_keeps_wf(self@, x as int, y as int, field_slot(block), block as int);
                }
                self.set_plot(x, y, create_field_plot(block));
                Ok((plant.kind, plant.komple))
            },
        }
    }
}

// ---------------------------------------------------------------------------
// The read view: stored state with every derived value computed at `now`.
// ---------------------------------------------------------------------------

#[derive(Debug, PartialEq, Eq)]
pub struct PlantDto {
    pub kind: PlantType,
    pub stages: u64,
    pub growth_period: u64,
    pub created_at: u64,
    pub watered_at: Vec<u64>,
    pub komple: Option<KomplePlant>,
    pub can_water: bool,
    pub can_harvest: bool,
    pub current_stage: u64,
    pub is_dead: bool,
}

pub struct PlantDtoView {
    pub plant: PlantView,
    pub can_water: bool,
    pub can_harvest: bool,
    pub current_stage: u64,
    pub is_dead: bool,
}

impl View for PlantDto {
    type V = PlantDtoView;

    open spec fn view(&self) -> PlantDtoView {
        PlantDtoView {
            plant: PlantView {
                kind: self.kind,
                stages: self.stages,
                growth_period: self.growth_period,
                created_at: self.created_at,
                watered_at: self.watered_at@,
                komple: self.komple,
            },
            can_water: self.can_water,
            can_harvest: self.can_harvest,
            current_stage: self.current_stage,
            is_dead: self.is_dead,
        }
    }
}

#[derive(Debug, PartialEq, Eq)]
pub struct SlotDto {
    pub effective_type: SlotType,
    pub plant: Option<PlantDto>,
    pub can_till: bool,
    pub created_at: u64,
}

pub struct SlotDtoView {
    pub effective_type: SlotType,
    pub plant: Option<PlantDtoView>,
    pub can_till: bool,
    pub created_at: u64,
}

impl View for SlotDto {
    type V = SlotDtoView;

    open spec fn view(&self) -> SlotDtoView {
        SlotDtoView {
            effective_type: self.effective_type,
            plant: match self.plant {
                Some(p) => Some(p@),
                None => None,
            },
            can_till: self.can_till,
            created_at: self.created_at,
        }
    }
}

#[derive(Debug, PartialEq, Eq)]
pub struct FarmProfileDto {
    pub plots: Vec<Vec<SlotDto>>,
    pub blocks: u64,
}

pub struct FarmProfileDtoView {
    pub plots: Seq<Seq<SlotDtoView>>,
    pub blocks: u64,
}

pub open spec fn dto_row_view(row: Vec<SlotDto>) -> Seq<SlotDtoView> {
    row@.map_values(|d: SlotDto| d@)
}

impl View for FarmProfileDto {
    type V = FarmProfileDtoView;

    open spec fn view(&self) -> FarmProfileDtoView {
        FarmProfileDtoView {
            plots: self.plots@.map_values(|row: Vec<SlotDto>| dto_row_view(row)),
            blocks: self.blocks,
        }
    }
}

pub open spec fn plant_dto_of(p: PlantView, now: int) -> PlantDtoView {
    PlantDtoView {
        plant: p,
        can_water: p.can_water(now),
        can_harvest: p.can_harvest(now),
        current_stage: p.current_stage(now) as u64,
        is_dead: p.is_dead(now),
    }
}

pub open spec fn slot_dto_of(s: SlotView, now: int) -> SlotDtoView {
    SlotDtoView {
        effective_type: s.effective_type(now),
        plant: match s.plant {
            Some(p) => Some(plant_dto_of(p, now)),
            None => None,
        },
        can_till: s.can_till(now),
        created_at: s.created_at,
    }
}

/// The read view of a grid at `now`.
pub open spec fn project(g: Grid, now: u64) -> FarmProfileDtoView {
    FarmProfileDtoView {
        plots: g.map_values(|row: Seq<SlotView>| row.map_values(|s: SlotView| slot_dto_of(s, now as int))),
        blocks: now,
    }
}

fn plant_dto(plant: &Option<Plant>, block: u64) -> (r: Option<PlantDto>)
    requires
        plant matches Some(p) ==> p@.wf() && p.created_at <= block,
        block < u64::MAX,
    ensures
        match plant {
            Some(p) => r matches Some(d) && d@ == plant_dto_of(p@, block as int),
            None => r is None,
        },
{
    match plant {
        None => None,
        Some(plant) => {
            let watered_at = plant.watered_at.clone();
            assert(watered_at@ =~= plant.watered_at@);
            Some(
                PlantDto {
                    kind: plant.kind,
                    stages: plant.stages,
                    growth_period: plant.growth_period,
                    created_at: plant.created_at,
                    watered_at,
                    komple: plant.komple,
                    can_water: plant.can_water(block),
                    can_harvest: plant.can_harvest(block),
                    current_stage: plant.get_current_stage(block),
                    is_dead: plant.is_dead(block),
                },
            )
        },
    }
}

fn slot_dto(slot: &Slot, block: u64) -> (r: SlotDto)
    requires
        slot@.wf(),
        slot@.settled(block as int),
        block < u64::MAX,
    ensures
        r@ == slot_dto_of(slot@, block as int),
{
    SlotDto {
        plant: plant_dto(&slot.plant, block),
        effective_type: slot.get_real_type(block),
        can_till: slot.can_till(block),
        created_at: slot.created_at,
    }
}

/// The read view of a farm at `block`, with every derived value computed.
pub fn farm_profile_dto(farm_profile: &Option<FarmProfile>, block: u64) -> (r: Option<
    FarmProfileDto,
>)
    requires
        farm_profile matches Some(f) ==> f.wf() && f.settled(block as int),
        block < u64::MAX,
    ensures
        match farm_profile {
            Some(f) => r matches Some(d) && d@ == project(f@, block),
            None => r is None,
        },
{
    match farm_profile {
        None => None,
        Some(farm_profile) => {
            let ghost g = farm_profile@;
            let ghost want = project(g, block).plots;
            let n = farm_profile.plots.len();
            let mut plots: Vec<Vec<SlotDto>> = Vec::new();
            let mut i: usize = 0;
            while i < n
                invariant
                    n == farm_profile.plots@.len(),
                    g == farm_profile@,
                    want == project(g, block).plots,
                    farm_profile.wf(),
                    farm_profile.settled(block as int),
                    block < u64::MAX,
                    i <= n,
                    plots@.len() == i,
                    forall|k: int| 0 <= k < i ==> dto_row_view(#[trigger] plots@[k]) == want[k],
                decreases n - i,
            {
                let row = &farm_profile.plots[i];
                let m = row.len();
                assert(g[i as int] == row_view(*row));
                let mut out_row: Vec<SlotDto> = Vec::new();
                let mut j: usize = 0;
                while j < m
                    invariant
                        m == row@.len(),
                        g[i as int] == row_view(*row),
                        i < n,
                        n == g.len(),
                        farm_profile.wf(),
                        farm_profile.settled(block as int),
                        g == farm_profile@,
                        block < u64::MAX,
                        j <= m,
                        out_row@.len() == j,
                        forall|k: int| 0 <= k < j ==> (#[trigger] out_row@[k])@ == slot_dto_of(g[i as int][k], block as int),
                    decreases m - j,
                {
                    assert(in_grid(g, i as int, j as int));
                    assert(g[i as int][j as int] == row[j as int]@);
                    out_row.push(slot_dto(&row[j], block));
                    j = j + 1;
                }
                assert(dto_row_view(out_row) =~= want[i as int]);
                plots.push(out_row);
                i = i + 1;
            }
            let d = FarmProfileDto { plots, blocks: block };
            assert(d@.plots =~= want);
            Some(d)
        },
    }
}

// ---------------------------------------------------------------------------
// Randomness jobs.
// ---------------------------------------------------------------------------

/// Work that waits for a random value.
#[derive(Clone, Debug, PartialEq, Eq)]
pub enum NoiseJob {
    MintSeeds { plant: KomplePlant, recipient: String },
}

// ---------------------------------------------------------------------------
// Score ledger.
// ---------------------------------------------------------------------------

/// Most entries that the leaderboard lists.
pub const LEADERBOARD_SIZE: usize = 100;

pub open spec fn seq_sum(s: Seq<u64>) -> int
    decreases s.len(),
{
    if s.len() == 0 {
        0
    } else {
        seq_sum(s.drop_last()) + s.last()
    }
}

proof fn lemma_sum_bounds(s: Seq<u64>, i: int)
    requires
        0 <= i <= s.len(),
    ensures
        0 <= seq_sum(s.take(i)) <= seq_sum(s),
        i < s.len() ==> s[i] <= seq_sum(s),
    decreases s.len(),
{
    if s.len() > 0 {
        if i == s.len() {
            assert(s.take(i) =~= s);
        } else {
            lemma_sum_bounds(s.drop_last(), i);
            assert(s.take(i) =~= s.drop_last().take(i));
        }
        if i < s.len() - 1 {
            assert(s.drop_last()[i] == s[i]);
        }
        lemma_sum_bounds(s.drop_last(), 0);
    }
}

proof fn lemma_sum_take_next(s: Seq<u64>, i: int)
    requires
        0 <= i < s.len(),
    ensures
        seq_sum(s.take(i + 1)) == seq_sum(s.take(i)) + s[i],
{
    assert(s.take(i + 1).drop_last() =~= s.take(i));
}

proof fn lemma_sum_increment(s: Seq<u64>, i: int)
    requires
        0 <= i < s.len(),
        s[i] < u64::MAX,
    ensures
        seq_sum(s.update(i, (s[i] + 1) as u64)) == seq_sum(s) + 1,
    decreases s.len(),
{
    let t = s.update(i, (s[i] + 1) as u64);
    if i == s.len() - 1 {
        assert(t.drop_last() =~= s.drop_last());
    } else {
        lemma_sum_increment(s.drop_last(), i);
        assert(t.drop_last() =~= s.drop_last().update(i, (s[i] + 1) as u64));
    }
}

/// An owner's harvest count per species, indexed by `kind_index`.
#[derive(Clone, Debug, PartialEq, Eq)]
pub struct Points {
    pub addr: String,
    pub plants: Vec<u64>,
}

impl Points {
    /// One count per species, and a total that fits in `u64`.
    pub open spec fn wf(&self) -> bool {
        &&& self.plants@.len() == PLANT_KINDS
        &&& seq_sum(self.plants@) <= u64::MAX
    }

    pub open spec fn count(&self, kind: PlantType) -> u64 {
        self.plants@[kind_index(kind)]
    }

    pub open spec fn score(&self) -> int {
        seq_sum(self.plants@)
    }

    /// An entry for `addr` with nothing harvested.
    pub fn new(addr: String) -> (r: Points)
        ensures
            r.wf(),
            r.addr == addr,
            r.plants@ == Seq::new(PLANT_KINDS as nat, |i: int| 0u64),
    {
        let plants = vec![0u64; PLANT_KINDS];
        assert(plants@ =~= Seq::new(PLANT_KINDS as nat, |i: int| 0u64));
        assert(plants@.drop_last().drop_last() =~= Seq::<u64>::empty());
        assert(seq_sum(plants@.drop_last().drop_last()) == 0);
        assert(plants@.drop_last().last() == 0);
        assert(seq_sum(plants@.drop_last()) == 0);
        Points { addr, plants }
    }

    /// Counts one more harvested plant of `plant_type`.
    pub fn add(&mut self, plant_type: PlantType)
        requires
            old(self).wf(),
            old(self).score() < u64::MAX,
        ensures
            final(self).wf(),
            final(self).addr == old(self).addr,
            final(self).plants@ == old(self).plants@.update(
                kind_index(plant_type),
                (old(self).count(plant_type) + 1) as u64,
            ),
            final(self).score() == old(self).score() + 1,
    {
        let i = plant_type.index();
        proof {
            lemma_sum_bounds(self.plants@, i as int);
            lemma_sum_increment(self.plants@, i as int);
        }
        let plant_points = self.plants[i];
        self.plants.set(i, plant_points + 1);
    }

    /// Sum of all counts.
    pub fn total(&self) -> (r: u64)
        requires
            self.wf(),
        ensures
            r == self.score(),
    {
        let mut acc: u64 = 0;
        let mut i: usize = 0;
        while i < self.plants.len()
            invariant
                self.wf(),
                i <= self.plants@.len(),
                acc == seq_sum(self.plants@.take(i as int)),
            decreases self.plants@.len() - i,
        {
            proof {
                lemma_sum_take_next(self.plants@, i as int);
                lemma_sum_bounds(self.plants@, i as int + 1);
            }
            acc = acc + self.plants[i];
            i = i + 1;
        }
        assert(self.plants@.take(i as int) =~= self.plants@);
        acc
    }
}

/// The first position in `s` whose score is below `t`, or its length.
pub open spec fn first_below(s: Seq<(String, u64)>, t: u64) -> int
    decreases s.len(),
{
    if s.len() == 0 {
        0
    } else if s[0].1 < t {
        0
    } else {
        1 + first_below(s.drop_first(), t)
    }
}

/// `s` ordered by score, highest first; equal scores keep their order in `s`.
pub open spec fn ranked(s: Seq<(String, u64)>) -> Seq<(String, u64)>
    decreases s.len(),
{
    if s.len() == 0 {
        s
    } else {
        let r = ranked(s.drop_last());
        r.insert(first_below(r, s.last().1), s.last())
    }
}

pub open spec fn scores(entries: Seq<Points>) -> Seq<(String, u64)> {
    entries.map_values(|p: Points| (p.addr, p.score() as u64))
}

proof fn lemma_first_below(s: Seq<(String, u64)>, t: u64, p: int)
    requires
        0 <= p <= s.len(),
        forall|j: int| 0 <= j < p ==> s[j].1 >= t,
        p == s.len() || s[p].1 < t,
    ensures
        first_below(s, t) == p,
    decreases p,
{
    if p > 0 {
        let d = s.drop_first();
        assert forall|j: int| 0 <= j < p - 1 implies d[j].1 >= t by {
            assert(d[j] == s[j + 1]);
        }
        if p < s.len() {
            assert(d[p - 1] == s[p]);
        }
        lemma_first_below(d, t, p - 1);
    }
}

/// Up to `LEADERBOARD_SIZE` owners with their totals, highest total first;
/// owners with equal totals keep the order of `entries`.
pub fn leaderboard(entries: &Vec<Points>) -> (r: Vec<(String, u64)>)
    requires
        forall|i: int| 0 <= i < entries@.len() ==> (#[trigger] entries@[i]).wf(),
    ensures
        r@ == ranked(scores(entries@)).take(
            if entries@.len() < LEADERBOARD_SIZE {
                entries@.len() as int
            } else {
                LEADERBOARD_SIZE as int
            },
        ),
{
    let ghost all = scores(entries@);
    let mut out: Vec<(String, u64)> = Vec::new();
    let mut i: usize = 0;
    while i < entries.len()
        invariant
            forall|k: int| 0 <= k < entries@.len() ==> (#[trigger] entries@[k]).wf(),
            all == scores(entries@),
            i <= entries@.len(),
            out@ == ranked(all.take(i as int)),
            out@.len() == i,
        decreases entries@.len() - i,
    {
        let entry = &entries[i];
        let t = entry.total();
        let mut p: usize = 0;
        while p < out.len() && out[p].1 >= t
            invariant
                p <= out@.len(),
                forall|j: int| 0 <= j < p ==> out@[j].1 >= t,
            decreases out@.len() - p,
        {
            p = p + 1;
        }
        proof {
            lemma_first_below(out@, t, p as int);
            assert(all.take(i + 1).drop_last() =~= all.take(i as int));
            assert(all.take(i + 1).last() == (entry.addr, t));
        }
        out.insert(p, (entry.addr.clone(), t));
        i = i + 1;
    }
    assert(all.take(i as int) =~= all);
    out.truncate(LEADERBOARD_SIZE);
    assert(out@ =~= ranked(all).take(
        if entries@.len() < LEADERBOARD_SIZE {
            entries@.len() as int
        } else {
            LEADERBOARD_SIZE as int
        },
    ));
    out
}

} // verus!
