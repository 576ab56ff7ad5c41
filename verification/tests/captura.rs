use keyviz::captura::{
    completar_tecla, es_atajo, etiqueta_tecla, procesar_evento, Paso, PULSADA, SOLTADA,
};
use keyviz::combo::{Modificador, Modificadores, KEY_CAPSLOCK, KEY_LEFTCTRL, KEY_LEFTSHIFT, KEY_RIGHTALT};

const KEY_A: u16 = 30;
const KEY_C: u16 = 46;
const KEY_K: u16 = 37;
const KEY_ENTER: u16 = 28;

#[test]
fn modifier_press_shows_modifiers_alone() {
    let mut mods = Modificadores::new();
    let mut caps = false;
    let paso = procesar_evento(&mut mods, &mut caps, true, KEY_LEFTCTRL, PULSADA);
    assert_eq!(paso, Paso::Emitir("Ctrl".to_string()));
    assert!(mods.contiene(Modificador::Ctrl));
    let paso = procesar_evento(&mut mods, &mut caps, true, KEY_LEFTSHIFT, PULSADA);
    assert_eq!(paso, Paso::Emitir("Ctrl\u{1F}Shift".to_string()));
}

#[test]
fn modifier_release_shows_nothing() {
    let mut mods = Modificadores::new();
    let mut caps = false;
    procesar_evento(&mut mods, &mut caps, true, KEY_LEFTCTRL, PULSADA);
    let paso = procesar_evento(&mut mods, &mut caps, true, KEY_LEFTCTRL, SOLTADA);
    assert_eq!(paso, Paso::Nada);
    assert_eq!(mods, Modificadores::new());
}

#[test]
fn autorepeat_is_ignored() {
    let mut mods = Modificadores::new();
    let mut caps = false;
    assert_eq!(procesar_evento(&mut mods, &mut caps, true, KEY_LEFTCTRL, 2), Paso::Nada);
    assert_eq!(procesar_evento(&mut mods, &mut caps, true, KEY_CAPSLOCK, 2), Paso::Nada);
    assert_eq!(procesar_evento(&mut mods, &mut caps, true, KEY_A, 2), Paso::Nada);
    assert_eq!(mods, Modificadores::new());
    assert!(!caps);
}

#[test]
fn shortcut_uses_physical_name() {
    let mut mods = Modificadores::new();
    let mut caps = false;
    procesar_evento(&mut mods, &mut caps, true, KEY_LEFTCTRL, PULSADA);
    let paso = procesar_evento(&mut mods, &mut caps, true, KEY_C, PULSADA);
    assert_eq!(paso, Paso::Emitir("Ctrl\u{1F}KEY_C".to_string()));
}

#[test]
fn without_translator_uses_physical_name() {
    let mut mods = Modificadores::new();
    let mut caps = false;
    let paso = procesar_evento(&mut mods, &mut caps, false, KEY_A, PULSADA);
    assert_eq!(paso, Paso::Emitir("KEY_A".to_string()));
}

#[test]
fn plain_key_asks_for_translation() {
    let mut mods = Modificadores::new();
    let mut caps = false;
    procesar_evento(&mut mods, &mut caps, true, KEY_LEFTSHIFT, PULSADA);
    procesar_evento(&mut mods, &mut caps, true, KEY_RIGHTALT, PULSADA);
    let paso = procesar_evento(&mut mods, &mut caps, true, KEY_K, PULSADA);
    assert_eq!(
        paso,
        Paso::Traducir { codigo: KEY_K, shift: true, altgr: true, caps: false }
    );
    assert_eq!(completar_tecla(&mods, KEY_K, Some("К".to_string())), "AltGr\u{1F}Shift\u{1F}К");
}

#[test]
fn key_release_shows_nothing() {
    let mut mods = Modificadores::new();
    let mut caps = false;
    assert_eq!(procesar_evento(&mut mods, &mut caps, true, KEY_A, SOLTADA), Paso::Nada);
}

#[test]
fn caps_lock_toggles_on_press() {
    let mut mods = Modificadores::new();
    let mut caps = false;
    let paso = procesar_evento(&mut mods, &mut caps, true, KEY_CAPSLOCK, PULSADA);
    assert!(caps);
    assert_eq!(paso, Paso::Traducir { codigo: KEY_CAPSLOCK, shift: false, altgr: false, caps: true });
    procesar_evento(&mut mods, &mut caps, true, KEY_CAPSLOCK, SOLTADA);
    assert!(caps);
    procesar_evento(&mut mods, &mut caps, true, KEY_CAPSLOCK, PULSADA);
    assert!(!caps);
}

#[test]
fn label_falls_back_to_physical_name() {
    assert_eq!(etiqueta_tecla(KEY_ENTER, None), "KEY_ENTER");
    assert_eq!(etiqueta_tecla(KEY_A, Some("a".to_string())), "a");
    assert_eq!(completar_tecla(&Modificadores::new(), KEY_ENTER, None), "KEY_ENTER");
}

#[test]
fn physical_name_is_evdev_name() {
    assert_eq!(etiqueta_tecla(KEY_A, None), "KEY_A");
    assert_eq!(etiqueta_tecla(KEY_CAPSLOCK, None), "KEY_CAPSLOCK");
}

#[test]
fn shortcut_detection() {
    let mut mods = Modificadores::new();
    assert!(!es_atajo(&mods));
    mods.insertar(Modificador::Shift);
    mods.insertar(Modificador::AltGr);
    assert!(!es_atajo(&mods));
    mods.insertar(Modificador::Super);
    assert!(es_atajo(&mods));
}

#[test]
fn press_order_does_not_matter() {
    let mut a = Modificadores::new();
    let mut b = Modificadores::new();
    let mut caps = false;
    procesar_evento(&mut a, &mut caps, true, KEY_LEFTCTRL, PULSADA);
    procesar_evento(&mut a, &mut caps, true, KEY_LEFTSHIFT, PULSADA);
    procesar_evento(&mut b, &mut caps, true, KEY_LEFTSHIFT, PULSADA);
    procesar_evento(&mut b, &mut caps, true, KEY_LEFTCTRL, PULSADA);
    assert_eq!(a, b);
}

#[test]
fn releasing_one_side_releases_modifier() {
    let mut mods = Modificadores::new();
    let mut caps = false;
    procesar_evento(&mut mods, &mut caps, true, KEY_LEFTCTRL, PULSADA);
    procesar_evento(&mut mods, &mut caps, true, keyviz::combo::KEY_RIGHTCTRL, PULSADA);
    procesar_evento(&mut mods, &mut caps, true, keyviz::combo::KEY_RIGHTCTRL, SOLTADA);
    assert!(!mods.contiene(Modificador::Ctrl));
}

#[test]
fn caps_lock_parity() {
    let mut mods = Modificadores::new();
    let mut caps = true;
    for valor in [PULSADA, SOLTADA, 2, PULSADA, SOLTADA, PULSADA] {
        procesar_evento(&mut mods, &mut caps, true, KEY_CAPSLOCK, valor);
    }
    // three presses flip it three times
    assert!(!caps);
}
