use keyviz::combo::{
    construir_combo, nombre_modificador, Modificador, Modificadores, KEY_CAPSLOCK, KEY_LEFTALT,
    KEY_LEFTCTRL, KEY_LEFTMETA, KEY_LEFTSHIFT, KEY_RIGHTALT, KEY_RIGHTCTRL, KEY_RIGHTMETA,
    KEY_RIGHTSHIFT, SEPARADOR_COMBO,
};

fn con(lista: &[Modificador]) -> Modificadores {
    let mut mods = Modificadores::new();
    for m in lista {
        mods.insertar(*m);
    }
    mods
}

#[test]
fn combo_ctrl_shift_k_in_fixed_order() {
    // Shift pressed before Ctrl: the label still reads Ctrl, Shift.
    let mods = con(&[Modificador::Shift, Modificador::Ctrl]);
    assert_eq!(construir_combo(&mods, Some("KEY_K")), "Ctrl\u{1F}Shift\u{1F}KEY_K");
}

#[test]
fn combo_all_modifiers_order() {
    let mods = con(&[
        Modificador::Shift,
        Modificador::AltGr,
        Modificador::Alt,
        Modificador::Ctrl,
        Modificador::Super,
    ]);
    assert_eq!(
        construir_combo(&mods, Some("x")),
        "Super\u{1F}Ctrl\u{1F}Alt\u{1F}AltGr\u{1F}Shift\u{1F}x"
    );
}

#[test]
fn combo_modifiers_alone() {
    let mods = con(&[Modificador::Alt, Modificador::Super]);
    assert_eq!(construir_combo(&mods, None), "Super\u{1F}Alt");
}

#[test]
fn combo_key_alone() {
    let mods = Modificadores::new();
    assert_eq!(construir_combo(&mods, Some("ж")), "ж");
}

#[test]
fn combo_plus_key_is_not_a_separator() {
    let mods = con(&[Modificador::Shift]);
    let combo = construir_combo(&mods, Some("+"));
    assert_eq!(combo, "Shift\u{1F}+");
    let partes: Vec<&str> = combo.split(SEPARADOR_COMBO).collect();
    assert_eq!(partes, vec!["Shift", "+"]);
}

#[test]
fn combo_nothing() {
    assert_eq!(construir_combo(&Modificadores::new(), None), "");
}

#[test]
fn combo_splits_back_into_parts() {
    let mods = con(&[Modificador::Ctrl, Modificador::AltGr]);
    let combo = construir_combo(&mods, Some("KEY_F1"));
    let partes: Vec<&str> = combo.split(SEPARADOR_COMBO).collect();
    assert_eq!(partes, vec!["Ctrl", "AltGr", "KEY_F1"]);
}

#[test]
fn modifier_names_unify_sides() {
    assert_eq!(nombre_modificador(KEY_LEFTCTRL), Some(Modificador::Ctrl));
    assert_eq!(nombre_modificador(KEY_RIGHTCTRL), Some(Modificador::Ctrl));
    assert_eq!(nombre_modificador(KEY_LEFTSHIFT), Some(Modificador::Shift));
    assert_eq!(nombre_modificador(KEY_RIGHTSHIFT), Some(Modificador::Shift));
    assert_eq!(nombre_modificador(KEY_LEFTALT), Some(Modificador::Alt));
    assert_eq!(nombre_modificador(KEY_RIGHTALT), Some(Modificador::AltGr));
    assert_eq!(nombre_modificador(KEY_LEFTMETA), Some(Modificador::Super));
    assert_eq!(nombre_modificador(KEY_RIGHTMETA), Some(Modificador::Super));
    assert_eq!(nombre_modificador(KEY_CAPSLOCK), None);
    assert_eq!(nombre_modificador(30), None);
}

#[test]
fn modifier_labels() {
    assert_eq!(Modificador::Super.nombre(), "Super");
    assert_eq!(Modificador::Ctrl.nombre(), "Ctrl");
    assert_eq!(Modificador::Alt.nombre(), "Alt");
    assert_eq!(Modificador::AltGr.nombre(), "AltGr");
    assert_eq!(Modificador::Shift.nombre(), "Shift");
}

#[test]
fn modifier_set_insert_remove() {
    let mut mods = Modificadores::new();
    assert!(!mods.contiene(Modificador::Ctrl));
    mods.insertar(Modificador::Ctrl);
    mods.insertar(Modificador::Ctrl);
    assert!(mods.contiene(Modificador::Ctrl));
    assert!(!mods.contiene(Modificador::Shift));
    mods.quitar(Modificador::Ctrl);
    assert!(!mods.contiene(Modificador::Ctrl));
    assert_eq!(mods, Modificadores::new());
}
