use vstd::prelude::*;

verus! {

#[derive(Clone, Debug, PartialEq, Eq)]
pub struct InstantiateMsg {
    pub admin: Option<String>,
    pub komple_mint_addr: Option<String>,
    pub nois_proxy: Option<String>,
}

#[derive(Clone, Copy, Debug, PartialEq, Eq, Structural)]
pub struct MigrateMsg {}

/// What the sender of a seed token asks for.
#[derive(Clone, Copy, Debug, PartialEq, Eq, Structural)]
pub enum Cw721HookMsg {
    Seed { x: u8, y: u8 },
}

#[derive(Clone, Debug, PartialEq, Eq)]
pub enum QueryMsg {
    ContractInfo {},
    /// A farm's read view.
    GetFarmProfile { address: String },
    Leaderboard {},
}

/// A token collection of the mint module.
#[derive(Clone, Debug, PartialEq, Eq)]
pub struct KompleCollection {
    pub addr: String,
    pub id: u32,
}

#[derive(Clone, Debug, PartialEq, Eq)]
pub struct ContractInformation {
    pub admin: String,
    pub komple_mint_addr: Option<String>,
}

} // verus!
