use trader_client::client::{decode_envelope, waypoint_system, ApiClient, ApiError, HttpMethod};
use trader_client::data::ApiResponse;
use trader_client::json::JsonValue;
use trader_client::config::ConfigData;
use trader_client::data::Factions;

#[test]
fn waypoint_system_takes_first_two_segments() {
    assert_eq!(waypoint_system("X1-DF55-20250Z").unwrap(), "X1-DF55");
    assert_eq!(waypoint_system("AB-12-CD-34").unwrap(), "AB-12");
}

#[test]
fn waypoint_with_one_dash_is_its_own_system() {
    assert_eq!(waypoint_system("A-B").unwrap(), "A-B");
}

#[test]
fn waypoint_without_dash_has_no_system() {
    assert!(waypoint_system("ABCDEF").is_none());
    assert!(waypoint_system("").is_none());
}

#[test]
fn init_without_config_is_missing_token() {
    let r = ApiClient::init(None);
    assert!(matches!(r, Err(ApiError::MissingToken)));
}

#[test]
fn init_with_config_takes_its_token() {
    let r = ApiClient::init(Some(ConfigData {
        token: String::from("TOK"),
    }));
    assert_eq!(r.unwrap().token, "TOK");
}

#[test]
fn faction_names_are_uppercase_identifiers() {
    assert_eq!(Factions::Astro.name(), "ASTRO");
    assert_eq!(Factions::Cosmic.name(), "COSMIC");
    assert_eq!(Factions::Corsairs.name(), "CORSAIRS");
}

#[test]
fn register_request_carries_name_and_faction() {
    let req = ApiClient::register_request("TEST_AGENT", Factions::Astro);
    assert_eq!(req.method, HttpMethod::Post);
    assert_eq!(req.url, "https://api.spacetraders.io/v2/register");
    assert_eq!(
        req.body.unwrap(),
        "{\"symbol\":\"TEST_AGENT\",\"faction\":\"ASTRO\"}"
    );
    assert!(req.bearer_token.is_none());
}

#[test]
fn agent_request_is_authorized_get() {
    let client = ApiClient::with_token(String::from("SECRET"));
    let req = client.get_agent_request();
    assert_eq!(req.method, HttpMethod::Get);
    assert_eq!(req.url, "https://api.spacetraders.io/v2/my/agent");
    assert!(req.body.is_none());
    assert_eq!(req.bearer_token.unwrap(), "SECRET");
}

#[test]
fn waypoint_request_derives_the_system_segment() {
    let client = ApiClient::with_token(String::from("SECRET"));
    let req = client.get_waypoint_request("X1-DF55-20250Z").unwrap();
    assert_eq!(req.method, HttpMethod::Get);
    assert_eq!(
        req.url,
        "https://api.spacetraders.io/v2/systems/X1-DF55/waypoints/X1-DF55-20250Z"
    );
    assert_eq!(req.bearer_token.unwrap(), "SECRET");
}

#[test]
fn waypoint_request_rejects_malformed_waypoint() {
    let client = ApiClient::with_token(String::from("SECRET"));
    let r = client.get_waypoint_request("NODASHES");
    assert!(matches!(r, Err(ApiError::InvalidWaypoint)));
}

#[test]
fn agent_envelope_decodes_to_agent_data() {
    let body = "{\"data\":{\"accountId\":\"a1\",\"symbol\":\"TESTAGENT\",\
                \"headquarters\":\"X1-DF55-A1\",\"credits\":150000}}";
    let agent = ApiClient::get_agent_response(body).unwrap();
    assert_eq!(agent.account_id, "a1");
    assert_eq!(agent.symbol, "TESTAGENT");
    assert_eq!(agent.headquarters, "X1-DF55-A1");
    assert_eq!(agent.credits, 150000);
}

#[test]
fn error_envelope_decodes_to_bad_request() {
    let body = "{\"error\":{\"message\":\"Agent symbol already exists\",\
                \"code\":4001,\"data\":null}}";
    let r = ApiClient::register_response(body);
    match r {
        Err(ApiError::BadRequest(e)) => {
            assert_eq!(e.message, "Agent symbol already exists");
            assert_eq!(e.code, 4001);
            assert!(e.data.is_none());
        }
        _ => panic!("expected a business rejection"),
    }
}

#[test]
fn error_envelope_with_auxiliary_data_keeps_it() {
    let body = "{\"error\":{\"message\":\"taken\",\"code\":4001,\
                \"data\":{\"symbol\":\"DUP\",\"attempt\":2}}}";
    let r = ApiClient::get_agent_response(body);
    match r {
        Err(ApiError::BadRequest(e)) => {
            let data = e.data.unwrap();
            assert_eq!(data.len(), 2);
            assert_eq!(data[0].0, "symbol");
            assert_eq!(data[1].0, "attempt");
        }
        _ => panic!("expected a business rejection"),
    }
}

#[test]
fn body_matching_neither_shape_is_a_decode_failure() {
    assert!(matches!(
        ApiClient::get_agent_response("not json"),
        Err(ApiError::Decode)
    ));
    assert!(matches!(
        ApiClient::get_agent_response("{\"something\":1}"),
        Err(ApiError::Decode)
    ));
    assert!(matches!(
        ApiClient::get_agent_response("{\"data\":{\"accountId\":\"a\"}}"),
        Err(ApiError::Decode)
    ));
    assert!(matches!(
        ApiClient::get_agent_response("[1,2,3]"),
        Err(ApiError::Decode)
    ));
}

#[test]
fn waypoint_envelope_decodes_to_location_data() {
    let body = "{\"data\":{\"systemSymbol\":\"X1-DF55\",\"symbol\":\"X1-DF55-20250Z\",\
                \"type\":\"PLANET\",\"x\":16,\"y\":-42,\
                \"orbitals\":[{\"symbol\":\"X1-DF55-69207D\"}],\
                \"traits\":[{\"symbol\":\"OVERCROWDED\",\"name\":\"Overcrowded\",\
                \"description\":\"Teeming\"}],\
                \"chart\":{\"submittedBy\":\"COSMIC\"},\
                \"faction\":{\"symbol\":\"COSMIC\"}}}";
    let l = ApiClient::get_waypoint_response(body).unwrap();
    assert_eq!(l.system_symbol, "X1-DF55");
    assert_eq!(l.symbol, "X1-DF55-20250Z");
    assert_eq!(l.location_type, "PLANET");
    assert_eq!(l.coords.x, 16);
    assert_eq!(l.coords.y, -42);
    let orbitals = l.orbitals.unwrap();
    assert_eq!(orbitals.len(), 1);
    assert_eq!(orbitals[0][0], (String::from("symbol"), String::from("X1-DF55-69207D")));
    let traits = l.traits.unwrap();
    assert_eq!(traits[0].symbol, "OVERCROWDED");
    assert_eq!(l.chart.unwrap()[0].1, "COSMIC");
    assert_eq!(l.faction.unwrap()[0].1, "COSMIC");
}

#[test]
fn waypoint_without_optional_fields_decodes() {
    let body = "{\"data\":{\"systemSymbol\":\"X1-A\",\"symbol\":\"X1-A-B\",\
                \"type\":\"MOON\",\"x\":0,\"y\":0}}";
    let l = ApiClient::get_waypoint_response(body).unwrap();
    assert!(l.orbitals.is_none());
    assert!(l.traits.is_none());
    assert!(l.chart.is_none());
    assert!(l.faction.is_none());
}

fn location_json(symbol: &str) -> String {
    format!(
        "{{\"systemSymbol\":\"X1-DF55\",\"symbol\":\"{symbol}\",\
         \"type\":\"PLANET\",\"x\":1,\"y\":2}}"
    )
}

fn component_json() -> String {
    String::from(
        "\"symbol\":\"PART\",\"name\":\"Part\",\"description\":\"A part\",\
         \"condition\":100,\"requirements\":{\"crew\":1,\"power\":2}",
    )
}

#[test]
fn registration_envelope_decodes_the_full_payload() {
    let comp = component_json();
    let body = format!(
        "{{\"data\":{{\
            \"token\":\"NEW_TOKEN\",\
            \"agent\":{{\"accountId\":\"acc\",\"symbol\":\"NEWAGENT\",\
                \"headquarters\":\"X1-DF55-A1\",\"credits\":100000}},\
            \"contract\":{{\"id\":\"c1\",\"factionSymbol\":\"COSMIC\",\"type\":\"PROCUREMENT\",\
                \"terms\":{{\"deadline\":\"2999-01-01\",\
                    \"payment\":{{\"onAccepted\":500,\"onFulfilled\":2000}},\
                    \"deliver\":[{{\"tradeSymbol\":\"IRON_ORE\",\"destinationSymbol\":\"X1-DF55-A1\",\
                        \"unitsRequired\":100,\"unitsFulfilled\":0}}]}},\
                \"accepted\":false,\"fulfilled\":false,\"expiration\":\"2999-01-01\"}},\
            \"faction\":{{\"symbol\":\"COSMIC\",\"name\":\"Cosmic Corps\",\
                \"description\":\"Spacey\",\"headquarters\":\"X1-DF55-A1\",\
                \"traits\":[{{\"symbol\":\"BUREAUCRATIC\",\"name\":\"B\",\"description\":\"D\"}}]}},\
            \"ship\":{{\"symbol\":\"NEWAGENT-1\",\
                \"nav\":{{\"systemSymbol\":\"X1-DF55\",\"waypointSymbol\":\"X1-DF55-A1\",\
                    \"route\":{{\"departure\":{dep},\"destination\":{dst}}},\
                    \"status\":\"DOCKED\",\"flightMode\":\"CRUISE\"}},\
                \"crew\":{{\"current\":10,\"capacity\":20,\"required\":5,\
                    \"rotation\":\"STRICT\",\"morale\":90,\"wages\":0}},\
                \"fuel\":{{\"current\":400,\"capacity\":400,\
                    \"consumed\":{{\"amount\":0,\"timestamp\":\"t0\"}}}},\
                \"frame\":{{{comp},\"moduleSlots\":8,\"mountingPoints\":5,\"fuelCapacity\":400}},\
                \"reactor\":{{{comp},\"powerOutput\":31}},\
                \"engine\":{{{comp},\"speed\":30}},\
                \"modules\":[{{{comp},\"capacity\":40}}],\
                \"mounts\":[{{{comp},\"strength\":10,\"deposits\":[\"IRON_ORE\"]}}],\
                \"registration\":{{\"name\":\"NEWAGENT-1\",\"factionSymbol\":\"COSMIC\",\
                    \"role\":\"COMMAND\"}},\
                \"cargo\":{{\"capacity\":60,\"units\":15,\
                    \"inventory\":[{{\"symbol\":\"IRON\",\"name\":\"Iron\",\
                        \"description\":\"Metal\",\"units\":15}}]}}}}\
        }}}}",
        dep = location_json("X1-DF55-A1"),
        dst = location_json("X1-DF55-A1"),
        comp = comp,
    );
    let rd = ApiClient::register_response(&body).unwrap();
    assert_eq!(rd.token, "NEW_TOKEN");
    assert_eq!(rd.agent.symbol, "NEWAGENT");
    assert_eq!(rd.agent.credits, 100000);
    assert_eq!(rd.contract.terms.payment.on_fulfilled, 2000);
    assert_eq!(rd.contract.terms.deliver[0].units_required, 100);
    assert_eq!(rd.faction.symbol, Factions::Cosmic);
    assert_eq!(rd.faction.traits[0].symbol, "BUREAUCRATIC");
    assert_eq!(rd.ship.nav.route.departure.symbol, "X1-DF55-A1");
    assert_eq!(rd.ship.crew.morale, 90);
    assert_eq!(rd.ship.fuel.consumed.amount, 0);
    assert_eq!(rd.ship.frame.module_slots, 8);
    assert_eq!(rd.ship.frame.component_info.condition, Some(100));
    assert_eq!(rd.ship.frame.component_info.requirements.crew, Some(1));
    assert_eq!(rd.ship.frame.component_info.requirements.slots, None);
    assert_eq!(rd.ship.reactor.power_output, 31);
    assert_eq!(rd.ship.engine.speed, 30);
    assert_eq!(rd.ship.modules[0].capacity, Some(40));
    assert_eq!(rd.ship.mounts[0].deposits.as_ref().unwrap()[0], "IRON_ORE");
    assert_eq!(rd.ship.registration.faction_symbol, Factions::Cosmic);
    assert_eq!(rd.ship.cargo.inventory[0].units, 15);
}

#[test]
fn registration_with_unknown_faction_is_a_decode_failure() {
    let body = "{\"data\":{\"token\":\"T\",\"agent\":{},\"contract\":{},\
                \"faction\":{\"symbol\":\"NOBODY\"},\"ship\":{}}}";
    assert!(matches!(
        ApiClient::register_response(body),
        Err(ApiError::Decode)
    ));
}

#[test]
fn errors_describe_themselves() {
    let e = ApiClient::init(None).unwrap_err();
    assert_eq!(
        e.describe(),
        "Cannot access the SpaceTraders API: missing auth token."
    );
    let body = "{\"error\":{\"message\":\"nope\",\"code\":1,\"data\":null}}";
    let bad = ApiClient::get_agent_response(body).unwrap_err();
    assert_eq!(
        bad.describe(),
        "The SpaceTraders API rejected the request: nope"
    );
    let net = ApiError::Network(String::from("timed out"));
    assert_eq!(
        net.describe(),
        "There was a networking error when trying to access the SpaceTraders API: timed out"
    );
}

#[test]
fn bootstrap_token_is_trimmed() {
    let r = ApiClient::from_bootstrap(Some("  tok-123\n")).unwrap();
    assert_eq!(r.token, "tok-123");
    let inner = ApiClient::from_bootstrap(Some("a b")).unwrap();
    assert_eq!(inner.token, "a b");
    let empty = ApiClient::from_bootstrap(Some("   \n\t ")).unwrap();
    assert_eq!(empty.token, "");
}

#[test]
fn bootstrap_without_secret_fails_fast() {
    assert!(matches!(
        ApiClient::from_bootstrap(None),
        Err(ApiError::MissingToken)
    ));
}

#[test]
fn envelope_decoding_tells_data_from_error() {
    match decode_envelope("{\"data\": 7}") {
        Ok(ApiResponse::Data(JsonValue::Int(7))) => {}
        _ => panic!("expected the successful payload"),
    }
    match decode_envelope("{\"error\":{\"message\":\"m\",\"code\":3,\"data\":null}}") {
        Ok(ApiResponse::Error(e)) => {
            assert_eq!(e.message, "m");
            assert_eq!(e.code, 3);
        }
        _ => panic!("expected the error payload"),
    }
    assert!(decode_envelope("{\"data\":1,\"error\":2}").is_err());
    assert!(decode_envelope("{}").is_err());
}

#[test]
fn every_faction_has_a_wire_identifier() {
    let all = [
        (Factions::Cosmic, "COSMIC"),
        (Factions::Void, "VOID"),
        (Factions::Galactic, "GALACTIC"),
        (Factions::Quantum, "QUANTUM"),
        (Factions::Dominion, "DOMINION"),
        (Factions::Astro, "ASTRO"),
        (Factions::Corsairs, "CORSAIRS"),
    ];
    for (faction, expected) in all {
        assert_eq!(faction.name(), expected);
        let req = ApiClient::register_request("A", faction);
        assert_eq!(
            req.body.unwrap(),
            format!("{{\"symbol\":\"A\",\"faction\":\"{expected}\"}}")
        );
    }
}
