//! The built-in SPN catalog.
//!
//! Common engine and generator parameters of the SAE J1939 standard,
//! listed PGN by PGN. Every PGN has its number, the list of its SPNs as a
//! specification, and the code that appends that list to the catalog.
//!
//! An entry gives, in this order: SPN, name, PGN, start byte, start bit, bit
//! length, scale, offset, unit and data type.

use vstd::prelude::*;

use crate::types::{Ratio, SpnDataType, SpnDef};

verus! {

/// EEC1 - Electronic Engine Controller 1 (PGN 61444 / 0xF004).
pub const PGN_EEC1: u32 = 61444;

/// The SPNs of EEC1 (Electronic Engine Controller 1), in catalog order.
pub open spec fn eec1_spns() -> Seq<SpnDef> {
    seq![
        SpnDef::new(899, "engine_torque_mode", PGN_EEC1, 0, 0, 4,
            Ratio::whole(1), Ratio::whole(0), "", SpnDataType::Uint8),
        SpnDef::new(4154, "actual_engine_retarder_percent", PGN_EEC1, 1, 0, 8,
            Ratio::whole(1), Ratio::whole(-125i32), "%", SpnDataType::Uint8),
        SpnDef::new(512, "drivers_demand_engine_percent", PGN_EEC1, 1, 0, 8,
            Ratio::whole(1), Ratio::whole(-125i32), "%", SpnDataType::Uint8),
        SpnDef::new(513, "actual_engine_percent_torque", PGN_EEC1, 2, 0, 8,
            Ratio::whole(1), Ratio::whole(-125i32), "%", SpnDataType::Uint8),
        SpnDef::new(190, "engine_speed", PGN_EEC1, 3, 0, 16,
            Ratio::new(1, 8), Ratio::whole(0), "RPM", SpnDataType::Uint16),
        SpnDef::new(1483, "eec1_source_address", PGN_EEC1, 5, 0, 8,
            Ratio::whole(1), Ratio::whole(0), "", SpnDataType::Uint8),
        SpnDef::new(1675, "engine_starter_mode", PGN_EEC1, 6, 0, 4,
            Ratio::whole(1), Ratio::whole(0), "", SpnDataType::Uint8),
        SpnDef::new(2432, "engine_demand_percent_torque", PGN_EEC1, 7, 0, 8,
            Ratio::whole(1), Ratio::whole(-125i32), "%", SpnDataType::Uint8),
    ]
}

/// Append the SPNs of EEC1.
fn push_eec1_spns(defs: &mut Vec<SpnDef>)
    ensures
        final(defs)@ == old(defs)@ + eec1_spns(),
{
    defs.push(
        SpnDef::new(899, "engine_torque_mode", PGN_EEC1, 0, 0, 4,
            Ratio::whole(1), Ratio::whole(0), "", SpnDataType::Uint8),
    );
    defs.push(
        SpnDef::new(4154, "actual_engine_retarder_percent", PGN_EEC1, 1, 0, 8,
            Ratio::whole(1), Ratio::whole(-125i32), "%", SpnDataType::Uint8),
    );
    defs.push(
        SpnDef::new(512, "drivers_demand_engine_percent", PGN_EEC1, 1, 0, 8,
            Ratio::whole(1), Ratio::whole(-125i32), "%", SpnDataType::Uint8),
    );
    defs.push(
        SpnDef::new(513, "actual_engine_percent_torque", PGN_EEC1, 2, 0, 8,
            Ratio::whole(1), Ratio::whole(-125i32), "%", SpnDataType::Uint8),
    );
    defs.push(
        SpnDef::new(190, "engine_speed", PGN_EEC1, 3, 0, 16,
            Ratio::new(1, 8), Ratio::whole(0), "RPM", SpnDataType::Uint16),
    );
    defs.push(
        SpnDef::new(1483, "eec1_source_address", PGN_EEC1, 5, 0, 8,
            Ratio::whole(1), Ratio::whole(0), "", SpnDataType::Uint8),
    );
    defs.push(
        SpnDef::new(1675, "engine_starter_mode", PGN_EEC1, 6, 0, 4,
            Ratio::whole(1), Ratio::whole(0), "", SpnDataType::Uint8),
    );
    defs.push(
        SpnDef::new(2432, "engine_demand_percent_torque", PGN_EEC1, 7, 0, 8,
            Ratio::whole(1), Ratio::whole(-125i32), "%", SpnDataType::Uint8),
    );
    assert(defs@ =~= old(defs)@ + eec1_spns());
}

/// EEC2 - Electronic Engine Controller 2 (PGN 61443 / 0xF003).
pub const PGN_EEC2: u32 = 61443;

/// The SPNs of EEC2 (Electronic Engine Controller 2), in catalog order.
pub open spec fn eec2_spns() -> Seq<SpnDef> {
    seq![
        SpnDef::new(558, "accelerator_pedal_1_low_switch", PGN_EEC2, 0, 0, 2,
            Ratio::whole(1), Ratio::whole(0), "", SpnDataType::Uint8),
        SpnDef::new(559, "accelerator_pedal_kickdown", PGN_EEC2, 0, 2, 2,
            Ratio::whole(1), Ratio::whole(0), "", SpnDataType::Uint8),
        SpnDef::new(1437, "road_speed_limit_status", PGN_EEC2, 0, 4, 2,
            Ratio::whole(1), Ratio::whole(0), "", SpnDataType::Uint8),
        SpnDef::new(2970, "accelerator_pedal_2_low_switch", PGN_EEC2, 0, 6, 2,
            Ratio::whole(1), Ratio::whole(0), "", SpnDataType::Uint8),
        SpnDef::new(91, "accelerator_pedal_position_1", PGN_EEC2, 1, 0, 8,
            Ratio::new(2, 5), Ratio::whole(0), "%", SpnDataType::Uint8),
        SpnDef::new(92, "percent_load_current_speed", PGN_EEC2, 2, 0, 8,
            Ratio::whole(1), Ratio::whole(0), "%", SpnDataType::Uint8),
        SpnDef::new(974, "remote_accelerator_position", PGN_EEC2, 3, 0, 8,
            Ratio::new(2, 5), Ratio::whole(0), "%", SpnDataType::Uint8),
        SpnDef::new(29, "accelerator_pedal_position_2", PGN_EEC2, 4, 0, 8,
            Ratio::new(2, 5), Ratio::whole(0), "%", SpnDataType::Uint8),
        SpnDef::new(2979, "vehicle_acceleration_rate_limit", PGN_EEC2, 5, 0, 8,
            Ratio::whole(1), Ratio::whole(0), "", SpnDataType::Uint8),
        SpnDef::new(5021, "momentary_engine_max_power_enable", PGN_EEC2, 6, 0, 2,
            Ratio::whole(1), Ratio::whole(0), "", SpnDataType::Uint8),
    ]
}

/// Append the SPNs of EEC2.
fn push_eec2_spns(defs: &mut Vec<SpnDef>)
    ensures
        final(defs)@ == old(defs)@ + eec2_spns(),
{
    defs.push(
        SpnDef::new(558, "accelerator_pedal_1_low_switch", PGN_EEC2, 0, 0, 2,
            Ratio::whole(1), Ratio::whole(0), "", SpnDataType::Uint8),
    );
    defs.push(
        SpnDef::new(559, "accelerator_pedal_kickdown", PGN_EEC2, 0, 2, 2,
            Ratio::whole(1), Ratio::whole(0), "", SpnDataType::Uint8),
    );
    defs.push(
        SpnDef::new(1437, "road_speed_limit_status", PGN_EEC2, 0, 4, 2,
            Ratio::whole(1), Ratio::whole(0), "", SpnDataType::Uint8),
    );
    defs.push(
        SpnDef::new(2970, "accelerator_pedal_2_low_switch", PGN_EEC2, 0, 6, 2,
            Ratio::whole(1), Ratio::whole(0), "", SpnDataType::Uint8),
    );
    defs.push(
        SpnDef::new(91, "accelerator_pedal_position_1", PGN_EEC2, 1, 0, 8,
            Ratio::new(2, 5), Ratio::whole(0), "%", SpnDataType::Uint8),
    );
    defs.push(
        SpnDef::new(92, "percent_load_current_speed", PGN_EEC2, 2, 0, 8,
            Ratio::whole(1), Ratio::whole(0), "%", SpnDataType::Uint8),
    );
    defs.push(
        SpnDef::new(974, "remote_accelerator_position", PGN_EEC2, 3, 0, 8,
            Ratio::new(2, 5), Ratio::whole(0), "%", SpnDataType::Uint8),
    );
    defs.push(
        SpnDef::new(29, "accelerator_pedal_position_2", PGN_EEC2, 4, 0, 8,
            Ratio::new(2, 5), Ratio::whole(0), "%", SpnDataType::Uint8),
    );
    defs.push(
        SpnDef::new(2979, "vehicle_acceleration_rate_limit", PGN_EEC2, 5, 0, 8,
            Ratio::whole(1), Ratio::whole(0), "", SpnDataType::Uint8),
    );
    defs.push(
        SpnDef::new(5021, "momentary_engine_max_power_enable", PGN_EEC2, 6, 0, 2,
            Ratio::whole(1), Ratio::whole(0), "", SpnDataType::Uint8),
    );
    assert(defs@ =~= old(defs)@ + eec2_spns());
}

/// EEC3 - Electronic Engine Controller 3 (PGN 65247 / 0xFEDF).
pub const PGN_EEC3: u32 = 65247;

/// The SPNs of EEC3 (Electronic Engine Controller 3), in catalog order.
pub open spec fn eec3_spns() -> Seq<SpnDef> {
    seq![
        SpnDef::new(514, "nominal_friction_percent_torque", PGN_EEC3, 0, 0, 8,
            Ratio::whole(1), Ratio::whole(-125i32), "%", SpnDataType::Uint8),
        SpnDef::new(515, "engine_desired_operating_speed", PGN_EEC3, 1, 0, 16,
            Ratio::new(1, 8), Ratio::whole(0), "RPM", SpnDataType::Uint16),
        SpnDef::new(519, "engine_operating_speed_asymmetry_adjust", PGN_EEC3, 3, 0, 8,
            Ratio::whole(1), Ratio::whole(0), "", SpnDataType::Uint8),
        SpnDef::new(2978, "estimated_engine_parasitic_losses", PGN_EEC3, 4, 0, 8,
            Ratio::whole(1), Ratio::whole(-125i32), "%", SpnDataType::Uint8),
        SpnDef::new(6595, "aftertreatment_1_exhaust_gas_mass_flow", PGN_EEC3, 5, 0, 16,
            Ratio::new(1, 5), Ratio::whole(0), "kg/h", SpnDataType::Uint16),
    ]
}

/// Append the SPNs of EEC3.
fn push_eec3_spns(defs: &mut Vec<SpnDef>)
    ensures
        final(defs)@ == old(defs)@ + eec3_spns(),
{
    defs.push(
        SpnDef::new(514, "nominal_friction_percent_torque", PGN_EEC3, 0, 0, 8,
            Ratio::whole(1), Ratio::whole(-125i32), "%", SpnDataType::Uint8),
    );
    defs.push(
        SpnDef::new(515, "engine_desired_operating_speed", PGN_EEC3, 1, 0, 16,
            Ratio::new(1, 8), Ratio::whole(0), "RPM", SpnDataType::Uint16),
    );
    defs.push(
        SpnDef::new(519, "engine_operating_speed_asymmetry_adjust", PGN_EEC3, 3, 0, 8,
            Ratio::whole(1), Ratio::whole(0), "", SpnDataType::Uint8),
    );
    defs.push(
        SpnDef::new(2978, "estimated_engine_parasitic_losses", PGN_EEC3, 4, 0, 8,
            Ratio::whole(1), Ratio::whole(-125i32), "%", SpnDataType::Uint8),
    );
    defs.push(
        SpnDef::new(6595, "aftertreatment_1_exhaust_gas_mass_flow", PGN_EEC3, 5, 0, 16,
            Ratio::new(1, 5), Ratio::whole(0), "kg/h", SpnDataType::Uint16),
    );
    assert(defs@ =~= old(defs)@ + eec3_spns());
}

/// ET1 - Engine Temperature 1 (PGN 65262 / 0xFEEE).
pub const PGN_ET1: u32 = 65262;

/// The SPNs of ET1 (Engine Temperature 1), in catalog order.
pub open spec fn et1_spns() -> Seq<SpnDef> {
    seq![
        SpnDef::new(110, "engine_coolant_temperature", PGN_ET1, 0, 0, 8,
            Ratio::whole(1), Ratio::whole(-40i32), "C", SpnDataType::Uint8),
        SpnDef::new(174, "fuel_temperature", PGN_ET1, 1, 0, 8,
            Ratio::whole(1), Ratio::whole(-40i32), "C", SpnDataType::Uint8),
        SpnDef::new(175, "engine_oil_temperature_1", PGN_ET1, 2, 0, 16,
            Ratio::new(1, 32), Ratio::whole(-273i32), "C", SpnDataType::Uint16),
        SpnDef::new(176, "turbo_oil_temperature", PGN_ET1, 4, 0, 16,
            Ratio::new(1, 32), Ratio::whole(-273i32), "C", SpnDataType::Uint16),
        SpnDef::new(52, "engine_intercooler_temperature", PGN_ET1, 6, 0, 8,
            Ratio::whole(1), Ratio::whole(-40i32), "C", SpnDataType::Uint8),
        SpnDef::new(1134, "engine_intercooler_thermostat_opening", PGN_ET1, 7, 0, 8,
            Ratio::new(2, 5), Ratio::whole(0), "%", SpnDataType::Uint8),
    ]
}

/// Append the SPNs of ET1.
fn push_et1_spns(defs: &mut Vec<SpnDef>)
    ensures
        final(defs)@ == old(defs)@ + et1_spns(),
{
    defs.push(
        SpnDef::new(110, "engine_coolant_temperature", PGN_ET1, 0, 0, 8,
            Ratio::whole(1), Ratio::whole(-40i32), "C", SpnDataType::Uint8),
    );
    defs.push(
        SpnDef::new(174, "fuel_temperature", PGN_ET1, 1, 0, 8,
            Ratio::whole(1), Ratio::whole(-40i32), "C", SpnDataType::Uint8),
    );
    defs.push(
        SpnDef::new(175, "engine_oil_temperature_1", PGN_ET1, 2, 0, 16,
            Ratio::new(1, 32), Ratio::whole(-273i32), "C", SpnDataType::Uint16),
    );
    defs.push(
        SpnDef::new(176, "turbo_oil_temperature", PGN_ET1, 4, 0, 16,
            Ratio::new(1, 32), Ratio::whole(-273i32), "C", SpnDataType::Uint16),
    );
    defs.push(
        SpnDef::new(52, "engine_intercooler_temperature", PGN_ET1, 6, 0, 8,
            Ratio::whole(1), Ratio::whole(-40i32), "C", SpnDataType::Uint8),
    );
    defs.push(
        SpnDef::new(1134, "engine_intercooler_thermostat_opening", PGN_ET1, 7, 0, 8,
            Ratio::new(2, 5), Ratio::whole(0), "%", SpnDataType::Uint8),
    );
    assert(defs@ =~= old(defs)@ + et1_spns());
}

/// EFLP1 - Engine Fluid Level/Pressure 1 (PGN 65263 / 0xFEEF).
pub const PGN_EFLP1: u32 = 65263;

/// The SPNs of EFLP1 (Engine Fluid Level/Pressure 1), in catalog order.
pub open spec fn eflp1_spns() -> Seq<SpnDef> {
    seq![
        SpnDef::new(94, "fuel_delivery_pressure", PGN_EFLP1, 0, 0, 8,
            Ratio::whole(4), Ratio::whole(0), "kPa", SpnDataType::Uint8),
        SpnDef::new(22, "extended_crankcase_blowby_pressure", PGN_EFLP1, 1, 0, 8,
            Ratio::new(1, 20), Ratio::whole(0), "kPa", SpnDataType::Uint8),
        SpnDef::new(98, "engine_oil_level", PGN_EFLP1, 2, 0, 8,
            Ratio::new(2, 5), Ratio::whole(0), "%", SpnDataType::Uint8),
        SpnDef::new(100, "engine_oil_pressure", PGN_EFLP1, 3, 0, 8,
            Ratio::whole(4), Ratio::whole(0), "kPa", SpnDataType::Uint8),
        SpnDef::new(101, "crankcase_pressure", PGN_EFLP1, 4, 0, 16,
            Ratio::new(1, 128), Ratio::whole(-250i32), "kPa", SpnDataType::Uint16),
        SpnDef::new(109, "coolant_pressure", PGN_EFLP1, 6, 0, 8,
            Ratio::whole(2), Ratio::whole(0), "kPa", SpnDataType::Uint8),
        SpnDef::new(111, "coolant_level", PGN_EFLP1, 7, 0, 8,
            Ratio::new(2, 5), Ratio::whole(0), "%", SpnDataType::Uint8),
    ]
}

/// Append the SPNs of EFLP1.
fn push_eflp1_spns(defs: &mut Vec<SpnDef>)
    ensures
        final(defs)@ == old(defs)@ + eflp1_spns(),
{
    defs.push(
        SpnDef::new(94, "fuel_delivery_pressure", PGN_EFLP1, 0, 0, 8,
            Ratio::whole(4), Ratio::whole(0), "kPa", SpnDataType::Uint8),
    );
    defs.push(
        SpnDef::new(22, "extended_crankcase_blowby_pressure", PGN_EFLP1, 1, 0, 8,
            Ratio::new(1, 20), Ratio::whole(0), "kPa", SpnDataType::Uint8),
    );
    defs.push(
        SpnDef::new(98, "engine_oil_level", PGN_EFLP1, 2, 0, 8,
            Ratio::new(2, 5), Ratio::whole(0), "%", SpnDataType::Uint8),
    );
    defs.push(
        SpnDef::new(100, "engine_oil_pressure", PGN_EFLP1, 3, 0, 8,
            Ratio::whole(4), Ratio::whole(0), "kPa", SpnDataType::Uint8),
    );
    defs.push(
        SpnDef::new(101, "crankcase_pressure", PGN_EFLP1, 4, 0, 16,
            Ratio::new(1, 128), Ratio::whole(-250i32), "kPa", SpnDataType::Uint16),
    );
    defs.push(
        SpnDef::new(109, "coolant_pressure", PGN_EFLP1, 6, 0, 8,
            Ratio::whole(2), Ratio::whole(0), "kPa", SpnDataType::Uint8),
    );
    defs.push(
        SpnDef::new(111, "coolant_level", PGN_EFLP1, 7, 0, 8,
            Ratio::new(2, 5), Ratio::whole(0), "%", SpnDataType::Uint8),
    );
    assert(defs@ =~= old(defs)@ + eflp1_spns());
}

/// IC1 - Inlet/Exhaust Conditions 1 (PGN 65270 / 0xFEF6).
pub const PGN_IC1: u32 = 65270;

/// The SPNs of IC1 (Inlet/Exhaust Conditions 1), in catalog order.
pub open spec fn ic1_spns() -> Seq<SpnDef> {
    seq![
        SpnDef::new(81, "particulate_trap_inlet_pressure", PGN_IC1, 0, 0, 8,
            Ratio::new(1, 2), Ratio::whole(0), "kPa", SpnDataType::Uint8),
        SpnDef::new(102, "boost_pressure", PGN_IC1, 1, 0, 8,
            Ratio::whole(2), Ratio::whole(0), "kPa", SpnDataType::Uint8),
        SpnDef::new(105, "intake_manifold_temperature", PGN_IC1, 2, 0, 8,
            Ratio::whole(1), Ratio::whole(-40i32), "C", SpnDataType::Uint8),
        SpnDef::new(106, "air_inlet_pressure", PGN_IC1, 3, 0, 8,
            Ratio::whole(2), Ratio::whole(0), "kPa", SpnDataType::Uint8),
        SpnDef::new(107, "air_filter_differential_pressure", PGN_IC1, 4, 0, 8,
            Ratio::new(1, 20), Ratio::whole(0), "kPa", SpnDataType::Uint8),
        SpnDef::new(173, "exhaust_gas_temperature", PGN_IC1, 5, 0, 16,
            Ratio::new(1, 32), Ratio::whole(-273i32), "C", SpnDataType::Uint16),
        SpnDef::new(112, "coolant_filter_differential_pressure", PGN_IC1, 7, 0, 8,
            Ratio::new(1, 2), Ratio::whole(0), "kPa", SpnDataType::Uint8),
    ]
}

/// Append the SPNs of IC1.
fn push_ic1_spns(defs: &mut Vec<SpnDef>)
    ensures
        final(defs)@ == old(defs)@ + ic1_spns(),
{
    defs.push(
        SpnDef::new(81, "particulate_trap_inlet_pressure", PGN_IC1, 0, 0, 8,
            Ratio::new(1, 2), Ratio::whole(0), "kPa", SpnDataType::Uint8),
    );
    defs.push(
        SpnDef::new(102, "boost_pressure", PGN_IC1, 1, 0, 8,
            Ratio::whole(2), Ratio::whole(0), "kPa", SpnDataType::Uint8),
    );
    defs.push(
        SpnDef::new(105, "intake_manifold_temperature", PGN_IC1, 2, 0, 8,
            Ratio::whole(1), Ratio::whole(-40i32), "C", SpnDataType::Uint8),
    );
    defs.push(
        SpnDef::new(106, "air_inlet_pressure", PGN_IC1, 3, 0, 8,
            Ratio::whole(2), Ratio::whole(0), "kPa", SpnDataType::Uint8),
    );
    defs.push(
        SpnDef::new(107, "air_filter_differential_pressure", PGN_IC1, 4, 0, 8,
            Ratio::new(1, 20), Ratio::whole(0), "kPa", SpnDataType::Uint8),
    );
    defs.push(
        SpnDef::new(173, "exhaust_gas_temperature", PGN_IC1, 5, 0, 16,
            Ratio::new(1, 32), Ratio::whole(-273i32), "C", SpnDataType::Uint16),
    );
    defs.push(
        SpnDef::new(112, "coolant_filter_differential_pressure", PGN_IC1, 7, 0, 8,
            Ratio::new(1, 2), Ratio::whole(0), "kPa", SpnDataType::Uint8),
    );
    assert(defs@ =~= old(defs)@ + ic1_spns());
}

/// VEP1 - Vehicle Electrical Power 1 (PGN 65271 / 0xFEF7).
pub const PGN_VEP1: u32 = 65271;

/// The SPNs of VEP1 (Vehicle Electrical Power 1), in catalog order.
pub open spec fn vep1_spns() -> Seq<SpnDef> {
    seq![
        SpnDef::new(114, "net_battery_current", PGN_VEP1, 0, 0, 16,
            Ratio::whole(1), Ratio::whole(-125i32), "A", SpnDataType::Int16),
        SpnDef::new(115, "alternator_current", PGN_VEP1, 2, 0, 16,
            Ratio::whole(1), Ratio::whole(0), "A", SpnDataType::Uint16),
        SpnDef::new(168, "battery_potential", PGN_VEP1, 4, 0, 16,
            Ratio::new(1, 20), Ratio::whole(0), "V", SpnDataType::Uint16),
        SpnDef::new(158, "keyswitch_battery_potential", PGN_VEP1, 6, 0, 16,
            Ratio::new(1, 20), Ratio::whole(0), "V", SpnDataType::Uint16),
    ]
}

/// Append the SPNs of VEP1.
fn push_vep1_spns(defs: &mut Vec<SpnDef>)
    ensures
        final(defs)@ == old(defs)@ + vep1_spns(),
{
    defs.push(
        SpnDef::new(114, "net_battery_current", PGN_VEP1, 0, 0, 16,
            Ratio::whole(1), Ratio::whole(-125i32), "A", SpnDataType::Int16),
    );
    defs.push(
        SpnDef::new(115, "alternator_current", PGN_VEP1, 2, 0, 16,
            Ratio::whole(1), Ratio::whole(0), "A", SpnDataType::Uint16),
    );
    defs.push(
        SpnDef::new(168, "battery_potential", PGN_VEP1, 4, 0, 16,
            Ratio::new(1, 20), Ratio::whole(0), "V", SpnDataType::Uint16),
    );
    defs.push(
        SpnDef::new(158, "keyswitch_battery_potential", PGN_VEP1, 6, 0, 16,
            Ratio::new(1, 20), Ratio::whole(0), "V", SpnDataType::Uint16),
    );
    assert(defs@ =~= old(defs)@ + vep1_spns());
}

/// AMB - Ambient Conditions (PGN 65269 / 0xFEF5).
pub const PGN_AMB: u32 = 65269;

/// The SPNs of AMB (Ambient Conditions), in catalog order.
pub open spec fn amb_spns() -> Seq<SpnDef> {
    seq![
        SpnDef::new(108, "barometric_pressure", PGN_AMB, 0, 0, 8,
            Ratio::new(1, 2), Ratio::whole(0), "kPa", SpnDataType::Uint8),
        SpnDef::new(170, "cab_interior_temperature", PGN_AMB, 1, 0, 16,
            Ratio::new(1, 32), Ratio::whole(-273i32), "C", SpnDataType::Uint16),
        SpnDef::new(171, "ambient_air_temperature", PGN_AMB, 3, 0, 16,
            Ratio::new(1, 32), Ratio::whole(-273i32), "C", SpnDataType::Uint16),
        SpnDef::new(172, "air_inlet_temperature", PGN_AMB, 5, 0, 8,
            Ratio::whole(1), Ratio::whole(-40i32), "C", SpnDataType::Uint8),
        SpnDef::new(79, "road_surface_temperature", PGN_AMB, 6, 0, 16,
            Ratio::new(1, 32), Ratio::whole(-273i32), "C", SpnDataType::Uint16),
    ]
}

/// Append the SPNs of AMB.
fn push_amb_spns(defs: &mut Vec<SpnDef>)
    ensures
        final(defs)@ == old(defs)@ + amb_spns(),
{
    defs.push(
        SpnDef::new(108, "barometric_pressure", PGN_AMB, 0, 0, 8,
            Ratio::new(1, 2), Ratio::whole(0), "kPa", SpnDataType::Uint8),
    );
    defs.push(
        SpnDef::new(170, "cab_interior_temperature", PGN_AMB, 1, 0, 16,
            Ratio::new(1, 32), Ratio::whole(-273i32), "C", SpnDataType::Uint16),
    );
    defs.push(
        SpnDef::new(171, "ambient_air_temperature", PGN_AMB, 3, 0, 16,
            Ratio::new(1, 32), Ratio::whole(-273i32), "C", SpnDataType::Uint16),
    );
    defs.push(
        SpnDef::new(172, "air_inlet_temperature", PGN_AMB, 5, 0, 8,
            Ratio::whole(1), Ratio::whole(-40i32), "C", SpnDataType::Uint8),
    );
    defs.push(
        SpnDef::new(79, "road_surface_temperature", PGN_AMB, 6, 0, 16,
            Ratio::new(1, 32), Ratio::whole(-273i32), "C", SpnDataType::Uint16),
    );
    assert(defs@ =~= old(defs)@ + amb_spns());
}

/// LFE - Liquid Fuel Economy (PGN 65266 / 0xFEF2).
pub const PGN_LFE: u32 = 65266;

/// The SPNs of LFE (Liquid Fuel Economy), in catalog order.
pub open spec fn lfe_spns() -> Seq<SpnDef> {
    seq![
        SpnDef::new(183, "fuel_rate", PGN_LFE, 0, 0, 16,
            Ratio::new(1, 20), Ratio::whole(0), "L/h", SpnDataType::Uint16),
        SpnDef::new(184, "instantaneous_fuel_economy", PGN_LFE, 2, 0, 16,
            Ratio::new(1, 512), Ratio::whole(0), "km/L", SpnDataType::Uint16),
        SpnDef::new(185, "average_fuel_economy", PGN_LFE, 4, 0, 16,
            Ratio::new(1, 512), Ratio::whole(0), "km/L", SpnDataType::Uint16),
        SpnDef::new(51, "throttle_position", PGN_LFE, 6, 0, 8,
            Ratio::new(2, 5), Ratio::whole(0), "%", SpnDataType::Uint8),
    ]
}

/// Append the SPNs of LFE.
fn push_lfe_spns(defs: &mut Vec<SpnDef>)
    ensures
        final(defs)@ == old(defs)@ + lfe_spns(),
{
    defs.push(
        SpnDef::new(183, "fuel_rate", PGN_LFE, 0, 0, 16,
            Ratio::new(1, 20), Ratio::whole(0), "L/h", SpnDataType::Uint16),
    );
    defs.push(
        SpnDef::new(184, "instantaneous_fuel_economy", PGN_LFE, 2, 0, 16,
            Ratio::new(1, 512), Ratio::whole(0), "km/L", SpnDataType::Uint16),
    );
    defs.push(
        SpnDef::new(185, "average_fuel_economy", PGN_LFE, 4, 0, 16,
            Ratio::new(1, 512), Ratio::whole(0), "km/L", SpnDataType::Uint16),
    );
    defs.push(
        SpnDef::new(51, "throttle_position", PGN_LFE, 6, 0, 8,
            Ratio::new(2, 5), Ratio::whole(0), "%", SpnDataType::Uint8),
    );
    assert(defs@ =~= old(defs)@ + lfe_spns());
}

/// HOURS - Engine Hours, Revolutions (PGN 65253 / 0xFEE5).
pub const PGN_HOURS: u32 = 65253;

/// The SPNs of HOURS (Engine Hours, Revolutions), in catalog order.
pub open spec fn hours_spns() -> Seq<SpnDef> {
    seq![
        SpnDef::new(247, "engine_total_hours_of_operation", PGN_HOURS, 0, 0, 32,
            Ratio::new(1, 20), Ratio::whole(0), "h", SpnDataType::Uint32),
        SpnDef::new(249, "engine_total_revolutions", PGN_HOURS, 4, 0, 32,
            Ratio::whole(1000), Ratio::whole(0), "r", SpnDataType::Uint32),
    ]
}

/// Append the SPNs of HOURS.
fn push_hours_spns(defs: &mut Vec<SpnDef>)
    ensures
        final(defs)@ == old(defs)@ + hours_spns(),
{
    defs.push(
        SpnDef::new(247, "engine_total_hours_of_operation", PGN_HOURS, 0, 0, 32,
            Ratio::new(1, 20), Ratio::whole(0), "h", SpnDataType::Uint32),
    );
    defs.push(
        SpnDef::new(249, "engine_total_revolutions", PGN_HOURS, 4, 0, 32,
            Ratio::whole(1000), Ratio::whole(0), "r", SpnDataType::Uint32),
    );
    assert(defs@ =~= old(defs)@ + hours_spns());
}

/// FC - Fuel Consumption (PGN 65257 / 0xFEE9).
pub const PGN_FC: u32 = 65257;

/// The SPNs of FC (Fuel Consumption), in catalog order.
pub open spec fn fc_spns() -> Seq<SpnDef> {
    seq![
        SpnDef::new(182, "engine_trip_fuel", PGN_FC, 0, 0, 32,
            Ratio::new(1, 2), Ratio::whole(0), "L", SpnDataType::Uint32),
        SpnDef::new(250, "engine_total_fuel_used", PGN_FC, 4, 0, 32,
            Ratio::new(1, 2), Ratio::whole(0), "L", SpnDataType::Uint32),
    ]
}

/// Append the SPNs of FC.
fn push_fc_spns(defs: &mut Vec<SpnDef>)
    ensures
        final(defs)@ == old(defs)@ + fc_spns(),
{
    defs.push(
        SpnDef::new(182, "engine_trip_fuel", PGN_FC, 0, 0, 32,
            Ratio::new(1, 2), Ratio::whole(0), "L", SpnDataType::Uint32),
    );
    defs.push(
        SpnDef::new(250, "engine_total_fuel_used", PGN_FC, 4, 0, 32,
            Ratio::new(1, 2), Ratio::whole(0), "L", SpnDataType::Uint32),
    );
    assert(defs@ =~= old(defs)@ + fc_spns());
}

/// VH - Vehicle Hours (PGN 65217 / 0xFEC1).
pub const PGN_VH: u32 = 65217;

/// The SPNs of VH (Vehicle Hours), in catalog order.
pub open spec fn vh_spns() -> Seq<SpnDef> {
    seq![
        SpnDef::new(246, "engine_total_idle_hours", PGN_VH, 0, 0, 32,
            Ratio::new(1, 20), Ratio::whole(0), "h", SpnDataType::Uint32),
        SpnDef::new(248, "engine_total_pto_hours", PGN_VH, 4, 0, 32,
            Ratio::new(1, 20), Ratio::whole(0), "h", SpnDataType::Uint32),
    ]
}

/// Append the SPNs of VH.
fn push_vh_spns(defs: &mut Vec<SpnDef>)
    ensures
        final(defs)@ == old(defs)@ + vh_spns(),
{
    defs.push(
        SpnDef::new(246, "engine_total_idle_hours", PGN_VH, 0, 0, 32,
            Ratio::new(1, 20), Ratio::whole(0), "h", SpnDataType::Uint32),
    );
    defs.push(
        SpnDef::new(248, "engine_total_pto_hours", PGN_VH, 4, 0, 32,
            Ratio::new(1, 20), Ratio::whole(0), "h", SpnDataType::Uint32),
    );
    assert(defs@ =~= old(defs)@ + vh_spns());
}

/// DD - Distance (PGN 65248 / 0xFEE0).
pub const PGN_DD: u32 = 65248;

/// The SPNs of DD (Distance), in catalog order.
pub open spec fn dd_spns() -> Seq<SpnDef> {
    seq![
        SpnDef::new(244, "trip_distance", PGN_DD, 0, 0, 32,
            Ratio::new(1, 8), Ratio::whole(0), "km", SpnDataType::Uint32),
        SpnDef::new(245, "total_vehicle_distance", PGN_DD, 4, 0, 32,
            Ratio::new(1, 8), Ratio::whole(0), "km", SpnDataType::Uint32),
    ]
}

/// Append the SPNs of DD.
fn push_dd_spns(defs: &mut Vec<SpnDef>)
    ensures
        final(defs)@ == old(defs)@ + dd_spns(),
{
    defs.push(
        SpnDef::new(244, "trip_distance", PGN_DD, 0, 0, 32,
            Ratio::new(1, 8), Ratio::whole(0), "km", SpnDataType::Uint32),
    );
    defs.push(
        SpnDef::new(245, "total_vehicle_distance", PGN_DD, 4, 0, 32,
            Ratio::new(1, 8), Ratio::whole(0), "km", SpnDataType::Uint32),
    );
    assert(defs@ =~= old(defs)@ + dd_spns());
}

/// CCVS - Cruise Control/Vehicle Speed (PGN 65265 / 0xFEF1).
pub const PGN_CCVS: u32 = 65265;

/// The SPNs of CCVS (Cruise Control/Vehicle Speed), in catalog order.
pub open spec fn ccvs_spns() -> Seq<SpnDef> {
    seq![
        SpnDef::new(69, "two_speed_axle_switch", PGN_CCVS, 0, 0, 2,
            Ratio::whole(1), Ratio::whole(0), "", SpnDataType::Uint8),
        SpnDef::new(70, "parking_brake_switch", PGN_CCVS, 0, 2, 2,
            Ratio::whole(1), Ratio::whole(0), "", SpnDataType::Uint8),
        SpnDef::new(84, "wheel_based_vehicle_speed", PGN_CCVS, 1, 0, 16,
            Ratio::new(1, 256), Ratio::whole(0), "km/h", SpnDataType::Uint16),
        SpnDef::new(595, "cruise_control_active", PGN_CCVS, 3, 0, 2,
            Ratio::whole(1), Ratio::whole(0), "", SpnDataType::Uint8),
        SpnDef::new(596, "cruise_control_enable_switch", PGN_CCVS, 3, 2, 2,
            Ratio::whole(1), Ratio::whole(0), "", SpnDataType::Uint8),
        SpnDef::new(86, "cruise_control_set_speed", PGN_CCVS, 5, 0, 8,
            Ratio::whole(1), Ratio::whole(0), "km/h", SpnDataType::Uint8),
        SpnDef::new(976, "pto_state", PGN_CCVS, 6, 0, 5,
            Ratio::whole(1), Ratio::whole(0), "", SpnDataType::Uint8),
    ]
}

/// Append the SPNs of CCVS.
fn push_ccvs_spns(defs: &mut Vec<SpnDef>)
    ensures
        final(defs)@ == old(defs)@ + ccvs_spns(),
{
    defs.push(
        SpnDef::new(69, "two_speed_axle_switch", PGN_CCVS, 0, 0, 2,
            Ratio::whole(1), Ratio::whole(0), "", SpnDataType::Uint8),
    );
    defs.push(
        SpnDef::new(70, "parking_brake_switch", PGN_CCVS, 0, 2, 2,
            Ratio::whole(1), Ratio::whole(0), "", SpnDataType::Uint8),
    );
    defs.push(
        SpnDef::new(84, "wheel_based_vehicle_speed", PGN_CCVS, 1, 0, 16,
            Ratio::new(1, 256), Ratio::whole(0), "km/h", SpnDataType::Uint16),
    );
    defs.push(
        SpnDef::new(595, "cruise_control_active", PGN_CCVS, 3, 0, 2,
            Ratio::whole(1), Ratio::whole(0), "", SpnDataType::Uint8),
    );
    defs.push(
        SpnDef::new(596, "cruise_control_enable_switch", PGN_CCVS, 3, 2, 2,
            Ratio::whole(1), Ratio::whole(0), "", SpnDataType::Uint8),
    );
    defs.push(
        SpnDef::new(86, "cruise_control_set_speed", PGN_CCVS, 5, 0, 8,
            Ratio::whole(1), Ratio::whole(0), "km/h", SpnDataType::Uint8),
    );
    defs.push(
        SpnDef::new(976, "pto_state", PGN_CCVS, 6, 0, 5,
            Ratio::whole(1), Ratio::whole(0), "", SpnDataType::Uint8),
    );
    assert(defs@ =~= old(defs)@ + ccvs_spns());
}

/// All SPN definitions in the database: the SPNs of each PGN in turn.
pub open spec fn catalog() -> Seq<SpnDef> {
    eec1_spns() + eec2_spns() + eec3_spns() + et1_spns() + eflp1_spns() + ic1_spns()
        + vep1_spns() + amb_spns() + lfe_spns() + hours_spns() + fc_spns() + vh_spns()
        + dd_spns() + ccvs_spns()
}

/// All SPN definitions in the database, in catalog order.
pub fn spn_definitions() -> (defs: Vec<SpnDef>)
    ensures
        defs@ == catalog(),
{
    let mut defs: Vec<SpnDef> = Vec::new();
    push_eec1_spns(&mut defs);
    push_eec2_spns(&mut defs);
    push_eec3_spns(&mut defs);
    push_et1_spns(&mut defs);
    push_eflp1_spns(&mut defs);
    push_ic1_spns(&mut defs);
    push_vep1_spns(&mut defs);
    push_amb_spns(&mut defs);
    push_lfe_spns(&mut defs);
    push_hours_spns(&mut defs);
    push_fc_spns(&mut defs);
    push_vh_spns(&mut defs);
    push_dd_spns(&mut defs);
    push_ccvs_spns(&mut defs);
    defs
}

/// The SPNs that the catalog lists under a PGN; none for a PGN that it does
/// not list.
pub open spec fn listed_spns(pgn: u32) -> Seq<SpnDef> {
    if pgn == PGN_EEC1 {
        eec1_spns()
    } else if pgn == PGN_EEC2 {
        eec2_spns()
    } else if pgn == PGN_EEC3 {
        eec3_spns()
    } else if pgn == PGN_ET1 {
        et1_spns()
    } else if pgn == PGN_EFLP1 {
        eflp1_spns()
    } else if pgn == PGN_IC1 {
        ic1_spns()
    } else if pgn == PGN_VEP1 {
        vep1_spns()
    } else if pgn == PGN_AMB {
        amb_spns()
    } else if pgn == PGN_LFE {
        lfe_spns()
    } else if pgn == PGN_HOURS {
        hours_spns()
    } else if pgn == PGN_FC {
        fc_spns()
    } else if pgn == PGN_VH {
        vh_spns()
    } else if pgn == PGN_DD {
        dd_spns()
    } else if pgn == PGN_CCVS {
        ccvs_spns()
    } else {
        Seq::empty()
    }
}

/// The PGNs that the catalog lists, in ascending order.
pub open spec fn listed_pgns() -> Seq<u32> {
    seq![
        PGN_EEC2, PGN_EEC1, PGN_VH, PGN_EEC3, PGN_DD, PGN_HOURS, PGN_FC, PGN_ET1, PGN_EFLP1,
        PGN_CCVS, PGN_LFE, PGN_AMB, PGN_IC1, PGN_VEP1,
    ]
}

/// Of definitions that all belong to one PGN, that PGN selects all and any
/// other PGN selects none.
proof fn lemma_one_pgn(defs: Seq<SpnDef>, group: u32, pgn: u32)
    requires
        forall|i: int| 0 <= i < defs.len() ==> (#[trigger] defs[i]).pgn == group,
    ensures
        defs.filter(|spn_def: SpnDef| spn_def.pgn == pgn) == if pgn == group {
            defs
        } else {
            Seq::empty()
        },
    decreases defs.len(),
{
    let in_pgn = |spn_def: SpnDef| spn_def.pgn == pgn;
    reveal(Seq::filter);
    if defs.len() > 0 {
        lemma_one_pgn(defs.drop_last(), group, pgn);
        assert(defs.drop_last().push(defs.last()) =~= defs);
    } else {
        assert(defs =~= Seq::empty());
    }
}

/// The catalog's definitions for a PGN are exactly the SPNs listed under
/// that PGN, in the order of the list: every entry stands under its own PGN
/// and no PGN is listed twice.
pub proof fn lemma_catalog_by_pgn(pgn: u32)
    ensures
        catalog().filter(|spn_def: SpnDef| spn_def.pgn == pgn) == listed_spns(pgn),
{
    broadcast use Seq::filter_distributes_over_add;

    let in_pgn = |spn_def: SpnDef| spn_def.pgn == pgn;
    lemma_one_pgn(eec1_spns(), PGN_EEC1, pgn);
    lemma_one_pgn(eec2_spns(), PGN_EEC2, pgn);
    lemma_one_pgn(eec3_spns(), PGN_EEC3, pgn);
    lemma_one_pgn(et1_spns(), PGN_ET1, pgn);
    lemma_one_pgn(eflp1_spns(), PGN_EFLP1, pgn);
    lemma_one_pgn(ic1_spns(), PGN_IC1, pgn);
    lemma_one_pgn(vep1_spns(), PGN_VEP1, pgn);
    lemma_one_pgn(amb_spns(), PGN_AMB, pgn);
    lemma_one_pgn(lfe_spns(), PGN_LFE, pgn);
    lemma_one_pgn(hours_spns(), PGN_HOURS, pgn);
    lemma_one_pgn(fc_spns(), PGN_FC, pgn);
    lemma_one_pgn(vh_spns(), PGN_VH, pgn);
    lemma_one_pgn(dd_spns(), PGN_DD, pgn);
    lemma_one_pgn(ccvs_spns(), PGN_CCVS, pgn);
    assert(catalog().filter(in_pgn) =~= listed_spns(pgn));
}

/// The catalog holds 71 definitions.
pub proof fn lemma_catalog_len()
    ensures
        catalog().len() == 71,
{
}

/// No two entries of the catalog share an SPN.
pub proof fn lemma_catalog_spns_are_unique()
    ensures
        forall|i: int, j: int|
            0 <= i < j < catalog().len() ==> catalog()[i].spn != catalog()[j].spn,
{
    let numbers = catalog().map_values(|spn_def: SpnDef| spn_def.spn);
    assert(numbers =~= seq![
        899u32, 4154, 512, 513, 190, 1483, 1675, 2432, 558, 559, 1437, 2970, 91, 92, 974, 29, 2979,
        5021, 514, 515, 519, 2978, 6595, 110, 174, 175, 176, 52, 1134, 94, 22, 98, 100, 101, 109,
        111, 81, 102, 105, 106, 107, 173, 112, 114, 115, 168, 158, 108, 170, 171, 172, 79, 183,
        184, 185, 51, 247, 249, 182, 250, 246, 248, 244, 245, 69, 70, 84, 595, 596, 86, 976,
    ]);
    assert forall|i: int, j: int| 0 <= i < j < catalog().len() implies catalog()[i].spn
        != catalog()[j].spn by {
        assert(numbers[i] == catalog()[i].spn);
        assert(numbers[j] == catalog()[j].spn);
    }
}

/// Whether every definition of a list is well formed.
pub open spec fn all_well_formed(defs: Seq<SpnDef>) -> bool {
    forall|i: int| 0 <= i < defs.len() ==> (#[trigger] defs[i]).well_formed()
}

/// Every entry of the catalog is well formed: its data type lies within an
/// 8-byte payload, its field is 1 to 32 bits long and ends within the data
/// type, starts at bit 0 if it is longer than a byte, and has a scale and an
/// offset with positive denominators.
pub proof fn lemma_catalog_is_well_formed()
    ensures
        all_well_formed(catalog()),
{
    assert(all_well_formed(eec1_spns()));
    assert(all_well_formed(eec2_spns()));
    assert(all_well_formed(eec3_spns()));
    assert(all_well_formed(et1_spns()));
    assert(all_well_formed(eflp1_spns()));
    assert(all_well_formed(ic1_spns()));
    assert(all_well_formed(vep1_spns()));
    assert(all_well_formed(amb_spns()));
    assert(all_well_formed(lfe_spns()));
    assert(all_well_formed(hours_spns()));
    assert(all_well_formed(fc_spns()));
    assert(all_well_formed(vh_spns()));
    assert(all_well_formed(dd_spns()));
    assert(all_well_formed(ccvs_spns()));
}

/// The number of SPNs listed under each PGN.
pub proof fn lemma_group_sizes()
    ensures
        eec1_spns().len() == 8,
        eec2_spns().len() == 10,
        eec3_spns().len() == 5,
        et1_spns().len() == 6,
        eflp1_spns().len() == 7,
        ic1_spns().len() == 7,
        vep1_spns().len() == 4,
        amb_spns().len() == 5,
        lfe_spns().len() == 4,
        hours_spns().len() == 2,
        fc_spns().len() == 2,
        vh_spns().len() == 2,
        dd_spns().len() == 2,
        ccvs_spns().len() == 7,
{
}

/// The list of PGNs is in ascending order without repetition, and a PGN is
/// on it exactly if SPNs are listed under it.
pub proof fn lemma_listed_pgns()
    ensures
        listed_pgns().len() == 14,
        forall|i: int, j: int| 0 <= i < j < listed_pgns().len() ==> listed_pgns()[i] < listed_pgns()[j],
        listed_pgns().no_duplicates(),
        forall|pgn: u32| listed_pgns().contains(pgn) <==> listed_spns(pgn).len() > 0,
{
    lemma_group_sizes();
    let listed = listed_pgns();
    assert forall|pgn: u32| listed.contains(pgn) <==> listed_spns(pgn).len() > 0 by {
        if listed.contains(pgn) {
            let i = choose|i: int| 0 <= i < listed.len() && listed[i] == pgn;
        }
        if listed_spns(pgn).len() > 0 {
            assert(listed[0] == pgn || listed[1] == pgn || listed[2] == pgn || listed[3] == pgn
                || listed[4] == pgn || listed[5] == pgn || listed[6] == pgn || listed[7] == pgn
                || listed[8] == pgn || listed[9] == pgn || listed[10] == pgn || listed[11] == pgn
                || listed[12] == pgn || listed[13] == pgn);
        }
    }
}

} // verus!
