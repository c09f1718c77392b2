//! The survey settings that the student chooses by name: satellite
//! positioning correction, echo sounder mode and vessel, with the words the
//! forms and the history use for them.

use vstd::prelude::*;
use vstd::string::*;
use crate::text::str_eq;

verus! {

/// Correction applied to the satellite positions of the path.
#[derive(Clone, Copy, Debug, PartialEq, Eq, Structural)]
pub enum GnssType {
    NoCorrection,
    DGPSCorrection,
    PhaseCorrection,
}

/// Echo sounder beam mode.
#[derive(Clone, Copy, Debug, PartialEq, Eq, Structural)]
pub enum EcosondaMode {
    Monohaz,
    Multihaz,
}

/// The vessel that carries the echo sounder.
#[derive(Clone, Copy, Debug, PartialEq, Eq, Structural)]
pub enum Transport {
    Ship,
    Boat,
    Launch,
}

/// The correction that an option of the path form names; any other text
/// means no correction.
pub open spec fn gnss_of_label(label: Seq<char>) -> GnssType {
    if label == "Corrección de Fase"@ {
        GnssType::PhaseCorrection
    } else if label == "Corrección DGPS"@ {
        GnssType::DGPSCorrection
    } else {
        GnssType::NoCorrection
    }
}

/// Reads the correction chosen in the path form.
pub fn gnss_from_label(label: &str) -> (g: GnssType)
    ensures
        g == gnss_of_label(label@),
{
    if str_eq(label, "Corrección de Fase") {
        GnssType::PhaseCorrection
    } else if str_eq(label, "Corrección DGPS") {
        GnssType::DGPSCorrection
    } else {
        GnssType::NoCorrection
    }
}

/// The options of the path form's correction list, in order.
pub fn gnss_options() -> (r: [&'static str; 3])
    ensures
        r[0]@ == "Corrección de Fase"@,
        r[1]@ == "Corrección DGPS"@,
        r[2]@ == "Sin corrección"@,
{
    ["Corrección de Fase", "Corrección DGPS", "Sin corrección"]
}

/// Every option of the form reads back as a distinct correction.
pub proof fn lemma_gnss_options_distinct()
    ensures
        gnss_of_label("Corrección de Fase"@) == GnssType::PhaseCorrection,
        gnss_of_label("Corrección DGPS"@) == GnssType::DGPSCorrection,
        gnss_of_label("Sin corrección"@) == GnssType::NoCorrection,
{
    reveal_strlit("Corrección de Fase");
    reveal_strlit("Corrección DGPS");
    reveal_strlit("Sin corrección");
    assert("Corrección DGPS"@.len() != "Corrección de Fase"@.len());
    assert("Sin corrección"@[0] != "Corrección de Fase"@[0]);
    assert("Sin corrección"@[0] != "Corrección DGPS"@[0]);
}

/// How the history describes a correction.
pub fn gnss_history_label(g: GnssType) -> (r: &'static str)
    ensures
        g == GnssType::NoCorrection ==> r@ == "Sin Corrección"@,
        g == GnssType::DGPSCorrection ==> r@ == "Con corrección DGPS"@,
        g == GnssType::PhaseCorrection ==> r@ == "Con correccion por fase"@,
{
    match g {
        GnssType::NoCorrection => "Sin Corrección",
        GnssType::DGPSCorrection => "Con corrección DGPS",
        GnssType::PhaseCorrection => "Con correccion por fase",
    }
}

/// How the history names a beam mode.
pub fn mode_label(m: EcosondaMode) -> (r: &'static str)
    ensures
        m == EcosondaMode::Monohaz ==> r@ == "Monohaz"@,
        m == EcosondaMode::Multihaz ==> r@ == "Multihaz"@,
{
    match m {
        EcosondaMode::Monohaz => "Monohaz",
        EcosondaMode::Multihaz => "Multihaz",
    }
}

/// How the vessel buttons name a vessel.
pub fn transport_label(t: Transport) -> (r: &'static str)
    ensures
        t == Transport::Ship ==> r@ == "BARCO"@,
        t == Transport::Boat ==> r@ == "BOTE"@,
        t == Transport::Launch ==> r@ == "LANCHA"@,
{
    match t {
        Transport::Ship => "BARCO",
        Transport::Boat => "BOTE",
        Transport::Launch => "LANCHA",
    }
}

/// How the history shows an instrument that is used or not.
pub fn yes_no(used: bool) -> (r: &'static str)
    ensures
        used ==> r@ == "Sí"@,
        !used ==> r@ == "No"@,
{
    if used { "Sí" } else { "No" }
}

/// How the history shows the echo sounder's frequency band.
pub fn frequency_label(high: bool) -> (r: &'static str)
    ensures
        high ==> r@ == "Alta"@,
        !high ==> r@ == "Baja"@,
{
    if high { "Alta" } else { "Baja" }
}

/// The echo sounder form as the student fills it in: numbers as typed,
/// switches as flags.
#[derive(Clone, Debug, PartialEq, Eq)]
pub struct EchoState {
    pub boat: String,
    pub max_limit: String,
    pub min_limit: String,
    pub pulse_repetition_interval: String,
    pub pulse_length: String,
    pub transmited_potency: String,
    pub gain: String,
    pub echosounder_velocity: String,
    pub umbral: String,
    pub uses_mareograph: bool,
    pub uses_sound_profiler: bool,
    pub uses_inertial_sensor: bool,
    pub uses_high_frecuency: bool,
    pub mode: EcosondaMode,
}

impl EchoState {
    /// The form's starting values.
    pub fn new() -> (e: Self)
        ensures
            e.boat@ == "W"@,
            e.max_limit@ == "100"@,
            e.min_limit@ == "0"@,
            e.pulse_repetition_interval@ == "100"@,
            e.pulse_length@ == "1"@,
            e.transmited_potency@ == "220"@,
            e.gain@ == "0"@,
            e.echosounder_velocity@ == "1450"@,
            e.umbral@ == "0.1"@,
            !e.uses_mareograph,
            e.uses_sound_profiler,
            !e.uses_inertial_sensor,
            e.uses_high_frecuency,
            e.mode == EcosondaMode::Monohaz,
    {
        EchoState {
            boat: String::from_str("W"),
            max_limit: String::from_str("100"),
            min_limit: String::from_str("0"),
            pulse_repetition_interval: String::from_str("100"),
            pulse_length: String::from_str("1"),
            transmited_potency: String::from_str("220"),
            gain: String::from_str("0"),
            echosounder_velocity: String::from_str("1450"),
            umbral: String::from_str("0.1"),
            uses_mareograph: false,
            uses_sound_profiler: true,
            uses_inertial_sensor: false,
            uses_high_frecuency: true,
            mode: EcosondaMode::Monohaz,
        }
    }
}

} // verus!
