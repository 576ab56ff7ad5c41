use keyviz::niri::{grupo_activo_desde_json, grupo_desde_indice, paso_sondeo, Sondeo};

#[test]
fn reads_current_idx() {
    let salida = br#"{"names":["English (US)","Russian"],"current_idx":1}"#;
    assert_eq!(grupo_activo_desde_json(salida), Some(1));
}

#[test]
fn reads_current_idx_zero() {
    assert_eq!(grupo_activo_desde_json(b"{\"current_idx\": 0}\n"), Some(0));
}

#[test]
fn not_json_gives_none() {
    assert_eq!(grupo_activo_desde_json(b"Error: niri not running"), None);
    assert_eq!(grupo_activo_desde_json(b""), None);
}

#[test]
fn missing_or_bad_index_gives_none() {
    assert_eq!(grupo_activo_desde_json(b"{\"names\":[]}"), None);
    assert_eq!(grupo_activo_desde_json(b"{\"current_idx\": -1}"), None);
    assert_eq!(grupo_activo_desde_json(b"{\"current_idx\": 1.5}"), None);
    assert_eq!(grupo_activo_desde_json(b"{\"current_idx\": \"1\"}"), None);
    assert_eq!(grupo_activo_desde_json(b"[1]"), None);
}

#[test]
fn large_index_is_cut_to_32_bits() {
    assert_eq!(grupo_activo_desde_json(b"{\"current_idx\": 4294967297}"), Some(1));
    assert_eq!(grupo_desde_indice(0x1_0000_0002), 2);
    assert_eq!(grupo_desde_indice(7), 7);
}

#[test]
fn first_failed_read_stops_polling() {
    assert_eq!(paso_sondeo(true, None), Sondeo::Detener);
}

#[test]
fn later_failed_read_keeps_group() {
    assert_eq!(paso_sondeo(false, None), Sondeo::Mantener);
}

#[test]
fn successful_read_sets_group() {
    assert_eq!(paso_sondeo(true, Some(2)), Sondeo::Fijar(2));
    assert_eq!(paso_sondeo(false, Some(0)), Sondeo::Fijar(0));
}

#[test]
fn duplicate_current_idx_keeps_last() {
    assert_eq!(grupo_activo_desde_json(br#"{"current_idx":1,"current_idx":2}"#), Some(2));
}
