use keyviz::xkb::{filtrar_imprimible, mascara, IndicesModificadores, MOD_INVALID};

#[test]
fn mask_of_missing_modifier_is_zero() {
    assert_eq!(mascara(MOD_INVALID), 0);
}

#[test]
fn mask_of_index() {
    assert_eq!(mascara(0), 1);
    assert_eq!(mascara(3), 8);
    assert_eq!(mascara(31), 0x8000_0000);
}

#[test]
fn masks_for_key_state() {
    let indices = IndicesModificadores::new(0, 7, 1);
    assert_eq!(indices.mascaras(false, false, false), (0, 0));
    assert_eq!(indices.mascaras(true, false, false), (1, 0));
    assert_eq!(indices.mascaras(true, true, false), (0x81, 0));
    assert_eq!(indices.mascaras(false, false, true), (0, 2));
    let sin_altgr = IndicesModificadores::new(0, MOD_INVALID, 1);
    assert_eq!(sin_altgr.mascaras(true, true, true), (1, 2));
}

#[test]
fn lookup_offsets_keycode() {
    let indices = IndicesModificadores::new(0, 7, 1);
    let c = indices.consulta(30, true, false, true, 1);
    assert_eq!(c.keycode, 38);
    assert_eq!(c.mods_depressed, 1);
    assert_eq!(c.mods_locked, 2);
    assert_eq!(c.grupo, 1);
}

#[test]
fn printable_text_is_kept() {
    assert_eq!(filtrar_imprimible("a".to_string()), Some("a".to_string()));
    assert_eq!(filtrar_imprimible("ж".to_string()), Some("ж".to_string()));
    assert_eq!(filtrar_imprimible(" ".to_string()), Some(" ".to_string()));
    assert_eq!(filtrar_imprimible("\u{1b}a".to_string()), Some("\u{1b}a".to_string()));
}

#[test]
fn control_text_is_dropped() {
    assert_eq!(filtrar_imprimible(String::new()), None);
    assert_eq!(filtrar_imprimible("\r".to_string()), None);
    assert_eq!(filtrar_imprimible("\t".to_string()), None);
    assert_eq!(filtrar_imprimible("\u{8}".to_string()), None);
    assert_eq!(filtrar_imprimible("\u{7f}".to_string()), None);
    assert_eq!(filtrar_imprimible("\u{1b}\u{7f}".to_string()), None);
}
