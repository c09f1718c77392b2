use simulador::delivery::delivery_button_class;
use simulador::attempts::{is_form_complete, is_simulation_disabled, latest_attempt, next_attempt_number, AttemptsState, UNLIMITED};
use simulador::delivery::{delivery_label, expired_message, is_delivery_expired, today_text, toggle_delivery, toggle_expanded, DeliveryMark, DeliveryOutcome};
use simulador::survey::{frequency_label, gnss_from_label, gnss_history_label, gnss_options, mode_label, transport_label, yes_no, EcosondaMode, GnssType, Transport};

fn marks(v: &[(i64, bool)]) -> Vec<DeliveryMark> {
    v.iter().map(|&(id, selected)| DeliveryMark { id, selected }).collect()
}

#[test]
fn today_is_zero_padded() {
    assert_eq!(today_text(2024, 0, 5), "2024-01-05");
    assert_eq!(today_text(2024, 11, 31), "2024-12-31");
    assert_eq!(today_text(987, 8, 9), "0987-09-09");
}

#[test]
fn deadline() {
    assert!(is_delivery_expired(true, Some("2024-05-01"), "2024-05-02"));
    assert!(!is_delivery_expired(true, Some("2024-05-02"), "2024-05-02"));
    assert!(!is_delivery_expired(true, Some("2024-06-01"), "2024-05-02"));
    assert!(!is_delivery_expired(true, None, "2024-05-02"));
    assert!(!is_delivery_expired(false, Some("2000-01-01"), "2024-05-02"));
}

#[test]
fn expired_and_not_delivered_is_refused() {
    let m = marks(&[(1, false), (2, true)]);
    assert_eq!(toggle_delivery(&m, 1, false, true), DeliveryOutcome::Expired);
    assert_eq!(expired_message(), "Error: El plazo de entrega para este proyecto ha expirado.");
}

#[test]
fn delivering_an_attempt_clears_the_others() {
    let m = marks(&[(1, false), (2, true), (3, false)]);
    assert_eq!(
        toggle_delivery(&m, 3, false, false),
        DeliveryOutcome::Chosen { marks: marks(&[(1, false), (2, false), (3, true)]), delivered: Some(3) }
    );
}

#[test]
fn delivered_attempt_can_be_withdrawn_even_after_deadline() {
    let m = marks(&[(1, false), (2, true)]);
    assert_eq!(
        toggle_delivery(&m, 2, true, true),
        DeliveryOutcome::Chosen { marks: marks(&[(1, false), (2, false)]), delivered: None }
    );
}

#[test]
fn choosing_twice_withdraws() {
    let m = marks(&[(1, false), (2, false)]);
    let once = match toggle_delivery(&m, 1, false, false) {
        DeliveryOutcome::Chosen { marks, delivered } => {
            assert_eq!(delivered, Some(1));
            marks
        }
        other => panic!("{:?}", other),
    };
    match toggle_delivery(&once, 1, true, false) {
        DeliveryOutcome::Chosen { marks, delivered } => {
            assert_eq!(delivered, None);
            assert!(marks.iter().all(|m| !m.selected));
        }
        other => panic!("{:?}", other),
    }
}

#[test]
fn unknown_attempt_is_delivered() {
    let m = marks(&[(1, true)]);
    assert_eq!(
        toggle_delivery(&m, 9, false, false),
        DeliveryOutcome::Chosen { marks: marks(&[(1, false)]), delivered: Some(9) }
    );
}

#[test]
fn labels_and_expansion() {
    assert_eq!(delivery_label(true, true), "ENTREGADO");
    assert_eq!(delivery_label(false, true), "PLAZO VENCIDO");
    assert_eq!(delivery_label(false, false), "ENTREGAR");
    assert_eq!(toggle_expanded(-1, 4), 4);
    assert_eq!(toggle_expanded(4, 4), -1);
    assert_eq!(toggle_expanded(4, 5), 5);
}

#[test]
fn attempts_limits() {
    let mut a = AttemptsState { spent: 2, limit: 3 };
    assert!(!a.is_limit_reached());
    a.record_attempt();
    assert_eq!(a, AttemptsState { spent: 3, limit: 3 });
    assert!(a.is_limit_reached());
    a.record_attempt();
    assert!(a.is_limit_reached());
    let free = AttemptsState { spent: 1000, limit: UNLIMITED };
    assert!(!free.is_limit_reached());
    assert_eq!(free.limit_label(), "∞");
    assert_eq!(a.limit_label(), "3");
}

#[test]
fn simulation_button() {
    let a = AttemptsState { spent: 0, limit: 1 };
    assert!(!is_simulation_disabled(true, false, &a));
    assert!(is_simulation_disabled(false, false, &a));
    assert!(is_simulation_disabled(true, true, &a));
    assert!(is_simulation_disabled(true, false, &AttemptsState { spent: 1, limit: 1 }));
}

#[test]
fn form_completeness() {
    let full: Vec<String> = vec!["0".into(), "100".into(), " 5 ".into()];
    assert!(is_form_complete(&full));
    let gap: Vec<String> = vec!["0".into(), "  ".into()];
    assert!(!is_form_complete(&gap));
    assert!(is_form_complete(&Vec::new()));
}

#[test]
fn latest_attempt_is_last_of_greatest() {
    assert_eq!(latest_attempt(&vec![]), None);
    assert_eq!(latest_attempt(&vec![1, 3, 2]), Some(1));
    assert_eq!(latest_attempt(&vec![3, 1, 3]), Some(2));
    let v = vec![5i64, 7, 7, 2];
    let std_pick = v.iter().enumerate().max_by_key(|(_, n)| **n).map(|(i, _)| i);
    assert_eq!(latest_attempt(&v), std_pick);
    assert_eq!(next_attempt_number(0), 1);
    assert_eq!(next_attempt_number(4), 5);
}

#[test]
fn survey_words() {
    let opts = gnss_options();
    assert_eq!(gnss_from_label(opts[0]), GnssType::PhaseCorrection);
    assert_eq!(gnss_from_label(opts[1]), GnssType::DGPSCorrection);
    assert_eq!(gnss_from_label(opts[2]), GnssType::NoCorrection);
    assert_eq!(gnss_from_label("cualquier cosa"), GnssType::NoCorrection);
    assert_eq!(gnss_history_label(GnssType::PhaseCorrection), "Con correccion por fase");
    assert_eq!(mode_label(EcosondaMode::Multihaz), "Multihaz");
    assert_eq!(transport_label(Transport::Launch), "LANCHA");
    assert_eq!(yes_no(true), "Sí");
    assert_eq!(frequency_label(false), "Baja");
}

#[test]
fn echo_form_defaults() {
    let e = simulador::survey::EchoState::new();
    assert_eq!(e.boat, "W");
    assert_eq!(e.max_limit, "100");
    assert_eq!(e.umbral, "0.1");
    assert_eq!(e.echosounder_velocity, "1450");
    assert!(e.uses_sound_profiler && e.uses_high_frecuency);
    assert!(!e.uses_mareograph && !e.uses_inertial_sensor);
    assert_eq!(e.mode, EcosondaMode::Monohaz);
}

#[test]
fn delivery_button_classes() {
    assert!(delivery_button_class(true, true).contains("bg-cyan-200"));
    assert!(delivery_button_class(false, true).contains("cursor-not-allowed"));
    assert!(delivery_button_class(false, false).contains("bg-zinc-800 text-white/50"));
}
