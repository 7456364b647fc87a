use crate::json::JsonValue;
use vstd::prelude::*;

verus! {

/// Names of the factions currently in the game.
#[derive(Clone, Copy, Debug, PartialEq, Eq, Structural)]
pub enum Factions {
    Cosmic,
    Void,
    Galactic,
    Quantum,
    Dominion,
    Astro,
    Corsairs,
}

/// The upper-case identifier a faction carries on the wire.
pub open spec fn spec_faction_name(f: Factions) -> Seq<char> {
    match f {
        Factions::Cosmic => seq!['C', 'O', 'S', 'M', 'I', 'C'],
        Factions::Void => seq!['V', 'O', 'I', 'D'],
        Factions::Galactic => seq!['G', 'A', 'L', 'A', 'C', 'T', 'I', 'C'],
        Factions::Quantum => seq!['Q', 'U', 'A', 'N', 'T', 'U', 'M'],
        Factions::Dominion => seq!['D', 'O', 'M', 'I', 'N', 'I', 'O', 'N'],
        Factions::Astro => seq!['A', 'S', 'T', 'R', 'O'],
        Factions::Corsairs => seq!['C', 'O', 'R', 'S', 'A', 'I', 'R', 'S'],
    }
}

impl Factions {
    /// The identifier sent to and received from the API.
    pub fn name(&self) -> (r: &'static str)
        ensures
            r@ == spec_faction_name(*self),
    {
        proof {
            reveal_strlit("COSMIC");
            reveal_strlit("VOID");
            reveal_strlit("GALACTIC");
            reveal_strlit("QUANTUM");
            reveal_strlit("DOMINION");
            reveal_strlit("ASTRO");
            reveal_strlit("CORSAIRS");
        }
        let r = match self {
            Factions::Cosmic => "COSMIC",
            Factions::Void => "VOID",
            Factions::Galactic => "GALACTIC",
            Factions::Quantum => "QUANTUM",
            Factions::Dominion => "DOMINION",
            Factions::Astro => "ASTRO",
            Factions::Corsairs => "CORSAIRS",
        };
        proof {
            assert(r@ =~= spec_faction_name(*self));
        }
        r
    }
}

/// An open string-keyed map of string values, kept in the order the
/// members appeared on the wire.
pub type StringMap = Vec<(String, String)>;

/// Basic information about a given player agent.
#[derive(Clone, Debug)]
pub struct AgentData {
    pub account_id: String,
    pub symbol: String,
    pub headquarters: String,
    /// Credits balance; signed and wide, for large in-game amounts.
    pub credits: i64,
}

/// General characteristics, currently used for factions and locations.
#[derive(Clone, Debug)]
pub struct TraitData {
    pub symbol: String,
    pub name: String,
    pub description: String,
}

/// Metadata pertaining to each faction.
#[derive(Clone, Debug)]
pub struct FactionData {
    pub symbol: Factions,
    pub name: String,
    pub description: String,
    pub headquarters: String,
    pub traits: Vec<TraitData>,
}

/// The payment split of a contract.
#[derive(Clone, Copy, Debug)]
pub struct PaymentInfo {
    pub on_accepted: i64,
    pub on_fulfilled: i64,
}

/// One delivery requirement of a contract.
#[derive(Clone, Debug)]
pub struct DeliveryInfo {
    pub trade_symbol: String,
    pub destination_symbol: String,
    pub units_required: i64,
    pub units_fulfilled: i64,
}

/// Terms of a contract: deadline, payment and deliveries.
#[derive(Clone, Debug)]
pub struct ContractTerms {
    pub deadline: String,
    pub payment: PaymentInfo,
    pub deliver: Vec<DeliveryInfo>,
}

/// Information about contracts, also known as missions.
#[derive(Clone, Debug)]
pub struct ContractData {
    pub id: String,
    pub faction_symbol: String,
    pub contract_type: String,
    pub terms: ContractTerms,
    pub accepted: bool,
    pub fulfilled: bool,
    pub expiration: String,
}

/// Integer coordinates of a location.
#[derive(Clone, Copy, Debug, PartialEq, Eq, Structural)]
pub struct Coords {
    pub x: i32,
    pub y: i32,
}

/// Metadata for one waypoint.
#[derive(Clone, Debug)]
pub struct LocationData {
    pub system_symbol: String,
    pub symbol: String,
    pub location_type: String,
    pub coords: Coords,
    pub orbitals: Option<Vec<StringMap>>,
    pub traits: Option<Vec<TraitData>>,
    pub chart: Option<StringMap>,
    pub faction: Option<StringMap>,
}

/// Crewing of a ship.
#[derive(Clone, Debug)]
pub struct CrewInfo {
    pub current: u16,
    pub capacity: u16,
    pub required: u16,
    pub rotation: String,
    pub morale: u8,
    pub wages: u32,
}

/// What a ship burned, and when.
#[derive(Clone, Debug)]
pub struct ConsumedFuel {
    pub amount: u32,
    pub timestamp: String,
}

/// A ship's fuel state.
#[derive(Clone, Debug)]
pub struct FuelInfo {
    pub current: u32,
    pub capacity: u32,
    pub consumed: ConsumedFuel,
}

/// What a ship component needs to be mounted.
#[derive(Clone, Copy, Debug)]
pub struct ComponentRequirements {
    pub crew: Option<u8>,
    pub power: Option<u8>,
    pub slots: Option<u8>,
}

/// The shape every ship component shares.
#[derive(Clone, Debug)]
pub struct ComponentInfo {
    pub symbol: String,
    pub name: String,
    pub description: String,
    pub condition: Option<u8>,
    pub requirements: ComponentRequirements,
}

/// A ship's frame; its fields stand beside the component's own.
#[derive(Clone, Debug)]
pub struct FrameInfo {
    pub component_info: ComponentInfo,
    pub module_slots: u8,
    pub mounting_points: u8,
    pub fuel_capacity: u16,
}

/// A ship's reactor.
#[derive(Clone, Debug)]
pub struct ReactorInfo {
    pub component_info: ComponentInfo,
    pub power_output: u8,
}

/// A ship's engine.
#[derive(Clone, Debug)]
pub struct EngineInfo {
    pub component_info: ComponentInfo,
    pub speed: u16,
}

/// One installed module.
#[derive(Clone, Debug)]
pub struct ModuleInfo {
    pub component_info: ComponentInfo,
    pub capacity: Option<u16>,
}

/// One installed mount.
#[derive(Clone, Debug)]
pub struct MountInfo {
    pub component_info: ComponentInfo,
    pub strength: u8,
    pub deposits: Option<Vec<String>>,
}

/// To what agent a given ship is registered.
#[derive(Clone, Debug)]
pub struct ShipRegistration {
    pub name: String,
    pub faction_symbol: Factions,
    pub role: String,
}

/// One kind of goods in a cargo hold.
#[derive(Clone, Debug)]
pub struct CargoItem {
    pub symbol: String,
    pub name: String,
    pub description: String,
    pub units: u16,
}

/// A ship's cargo hold.
#[derive(Clone, Debug)]
pub struct CargoInfo {
    pub capacity: u32,
    pub units: u32,
    pub inventory: Vec<CargoItem>,
}

/// Where a ship is going, and from where.
#[derive(Clone, Debug)]
pub struct Route {
    pub departure: LocationData,
    pub destination: LocationData,
}

/// A ship's navigation state.
#[derive(Clone, Debug)]
pub struct NavInfo {
    pub system_symbol: String,
    pub waypoint_symbol: String,
    pub route: Route,
    pub status: String,
    pub flight_mode: String,
}

/// Metadata associated with a given ship.
#[derive(Clone, Debug)]
pub struct ShipData {
    pub symbol: String,
    pub nav: NavInfo,
    pub crew: CrewInfo,
    pub fuel: FuelInfo,
    pub frame: FrameInfo,
    pub reactor: ReactorInfo,
    pub engine: EngineInfo,
    pub modules: Vec<ModuleInfo>,
    pub mounts: Vec<MountInfo>,
    pub registration: ShipRegistration,
    pub cargo: CargoInfo,
}

/// Data that is returned when a new agent is created in the game.
#[derive(Clone, Debug)]
pub struct RegistrationData {
    /// The new bearer credential.
    pub token: String,
    pub agent: AgentData,
    pub contract: ContractData,
    pub faction: FactionData,
    pub ship: ShipData,
}


/// Shape of errors that come from the API: a human-readable message, a
/// numeric code, and an optional open-ended map of auxiliary data.
#[derive(Clone, Debug)]
pub struct ErrorResponse {
    pub message: String,
    pub code: i32,
    pub data: Option<Vec<(String, JsonValue)>>,
}

/// The envelope every response arrives in: a successful payload or an
/// API-reported error, told apart by the single key of the body.
#[derive(Clone, Debug)]
pub enum ApiResponse<T> {
    Data(T),
    Error(ErrorResponse),
}

} // verus!
