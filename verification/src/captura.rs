//! What one key event does to the held modifiers and Caps Lock, and what it
//! shows: the step function of the capture loop.

use vstd::prelude::*;
use crate::xkb::es_imprimible;
use crate::combo::{
    KEY_CAPSLOCK, Modificador, Modificadores, combo_spec, construir_combo, modificador_de_spec,
    nombre_modificador, nombre_spec, orden_spec, partes_combo,
};

verus! {

/// What evdev's `Debug` writes for the key with event code `codigo`
/// (e.g. "KEY_K").
pub uninterp spec fn nombre_tecla_evdev(codigo: u16) -> Seq<char>;

/// `Debug` of `evdev::KeyCode::new(codigo)`. Its result is a fixed function
/// of the code (a static table of names), named `nombre_tecla_evdev`.
#[verifier::external_body]
fn nombre_fisico(codigo: u16) -> (r: String)
    ensures
        r@ == nombre_tecla_evdev(codigo),
{
    format!("{:?}", evdev::KeyCode::new(codigo))
}

/// Key values of an evdev key event.
pub const SOLTADA: i32 = 0;
pub const PULSADA: i32 = 1;

/// The next action of the capture loop after a key event.
#[derive(Debug, PartialEq, Eq)]
pub enum Paso {
    /// Nothing to show.
    Nada,
    /// Show this combination label.
    Emitir(String),
    /// Ask the layout translator for the symbol of the key with these
    /// modifier and Caps Lock states, then finish with `completar_tecla`.
    Traducir { codigo: u16, shift: bool, altgr: bool, caps: bool },
}

/// A "heavy" modifier (Ctrl, Alt or Super) is held: the keystroke is a
/// shortcut and its key keeps its physical name.
pub open spec fn es_atajo_spec(mods: Set<Modificador>) -> bool {
    mods.contains(Modificador::Ctrl) || mods.contains(Modificador::Alt) || mods.contains(
        Modificador::Super,
    )
}

/// Held modifiers after a key event: a modifier press adds it, a modifier
/// release removes it, anything else leaves the set alone.
pub open spec fn siguientes_mods(mods: Set<Modificador>, codigo: u16, valor: i32) -> Set<Modificador> {
    match modificador_de_spec(codigo) {
        Some(m) => if valor == PULSADA {
            mods.insert(m)
        } else if valor == SOLTADA {
            mods.remove(m)
        } else {
            mods
        },
        None => mods,
    }
}

/// Caps Lock after a key event: a press of Caps Lock toggles it.
pub open spec fn siguiente_caps(caps: bool, codigo: u16, valor: i32) -> bool {
    if codigo == KEY_CAPSLOCK && valor == PULSADA {
        !caps
    } else {
        caps
    }
}

/// The label of a key: its symbol in the active layout when there is one,
/// else its physical name.
pub open spec fn etiqueta_spec(codigo: u16, traduccion: Option<Seq<char>>) -> Seq<char> {
    match traduccion {
        Some(t) => t,
        None => nombre_tecla_evdev(codigo),
    }
}

/// Whether Ctrl, Alt or Super is held.
pub fn es_atajo(mods: &Modificadores) -> (r: bool)
    ensures
        r == es_atajo_spec(mods@),
        r == (mods.ctrl || mods.alt || mods.super_),
{
    mods.contiene(Modificador::Ctrl) || mods.contiene(Modificador::Alt) || mods.contiene(
        Modificador::Super,
    )
}

/// The label of the main key: the layout's symbol when the translator gave
/// one, else the physical evdev name (e.g. "KEY_BACKSPACE").
pub fn etiqueta_tecla(codigo: u16, traduccion: Option<String>) -> (r: String)
    ensures
        r@ == etiqueta_spec(
            codigo,
            match traduccion {
                Some(t) => Some(t@),
                None => None,
            },
        ),
{
    match traduccion {
        Some(simbolo) => simbolo,
        None => nombre_fisico(codigo),
    }
}

/// The combination for a key press whose translation came back.
pub fn completar_tecla(mods: &Modificadores, codigo: u16, traduccion: Option<String>) -> (r: String)
    ensures
        r@ == combo_spec(
            mods@,
            Some(
                etiqueta_spec(
                    codigo,
                    match traduccion {
                        Some(t) => Some(t@),
                        None => None,
                    },
                ),
            ),
        ),
{
    let nombre = etiqueta_tecla(codigo, traduccion);
    construir_combo(mods, Some(nombre.as_str()))
}

/// Handles one evdev key event: `codigo` is the key's event code, `valor`
/// 1 for a press, 0 for a release, 2 for autorepeat (ignored).
/// `hay_traductor` tells whether a layout translator is available.
///
/// Caps Lock presses toggle `caps`. A modifier press adds it to `mods` and
/// shows the held modifiers alone; a modifier release removes it and shows
/// nothing. Another key's press shows the held modifiers and the key: with
/// Ctrl, Alt or Super held, or with no translator, under its physical name;
/// otherwise the step asks for the layout's symbol first.
pub fn procesar_evento(
    mods: &mut Modificadores,
    caps: &mut bool,
    hay_traductor: bool,
    codigo: u16,
    valor: i32,
) -> (r: Paso)
    ensures
        valor != PULSADA && valor != SOLTADA ==> *final(mods) == *old(mods) && *final(caps)
            == *old(caps) && r == Paso::Nada,
        final(mods)@ == siguientes_mods(old(mods)@, codigo, valor),
        *final(caps) == siguiente_caps(*old(caps), codigo, valor),
        valor == SOLTADA ==> r == Paso::Nada,
        valor == PULSADA && modificador_de_spec(codigo) is Some ==> (r matches Paso::Emitir(s)
            && s@ == combo_spec(final(mods)@, None)),
        valor == PULSADA && modificador_de_spec(codigo) is None ==> *final(mods) == *old(mods),
        valor == PULSADA && modificador_de_spec(codigo) is None && (es_atajo_spec(old(mods)@)
            || !hay_traductor) ==> (r matches Paso::Emitir(s) && s@ == combo_spec(
            old(mods)@,
            Some(nombre_tecla_evdev(codigo)),
        )),
        valor == PULSADA && modificador_de_spec(codigo) is None && !es_atajo_spec(old(mods)@)
            && hay_traductor ==> r == (Paso::Traducir {
            codigo,
            shift: old(mods)@.contains(Modificador::Shift),
            altgr: old(mods)@.contains(Modificador::AltGr),
            caps: *final(caps),
        }),
{
    if valor != PULSADA && valor != SOLTADA {
        return Paso::Nada;
    }
    if codigo == KEY_CAPSLOCK && valor == PULSADA {
        *caps = !*caps;
    }
    match nombre_modificador(codigo) {
        Some(m) => {
            if valor == PULSADA {
                mods.insertar(m);
                // Only a modifier held with no other key yet is shown alone.
                Paso::Emitir(construir_combo(mods, None))
            } else {
                mods.quitar(m);
                Paso::Nada
            }
        },
        None => {
            if valor != PULSADA {
                Paso::Nada
            } else if es_atajo(mods) || !hay_traductor {
                Paso::Emitir(completar_tecla(mods, codigo, None))
            } else {
                Paso::Traducir {
                    codigo,
                    shift: mods.contiene(Modificador::Shift),
                    altgr: mods.contiene(Modificador::AltGr),
                    caps: *caps,
                }
            }
        },
    }
}

/// Pressing a modifier key and releasing it leaves that modifier released
/// and every other modifier as it was.
pub proof fn ley_pulsar_y_soltar(mods: Set<Modificador>, codigo: u16)
    requires
        modificador_de_spec(codigo) is Some,
    ensures
        siguientes_mods(siguientes_mods(mods, codigo, PULSADA), codigo, SOLTADA) == mods.remove(
            modificador_de_spec(codigo)->0,
        ),
{
    let m = modificador_de_spec(codigo)->0;
    assert(mods.insert(m).remove(m) =~= mods.remove(m));
}

/// The combination does not depend on the order in which modifiers were
/// pressed: pressing `a` then `b` holds the same modifiers as `b` then `a`.
pub proof fn ley_orden_de_pulsacion(mods: Set<Modificador>, a: u16, b: u16)
    ensures
        siguientes_mods(siguientes_mods(mods, a, PULSADA), b, PULSADA) == siguientes_mods(
            siguientes_mods(mods, b, PULSADA),
            a,
            PULSADA,
        ),
{
    assert(siguientes_mods(siguientes_mods(mods, a, PULSADA), b, PULSADA) =~= siguientes_mods(
        siguientes_mods(mods, b, PULSADA),
        a,
        PULSADA,
    ));
}

/// Two presses of Caps Lock give back the state it had; its release and
/// autorepeat do not change it.
pub proof fn ley_caps_lock(caps: bool, valor: i32)
    ensures
        siguiente_caps(siguiente_caps(caps, KEY_CAPSLOCK, PULSADA), KEY_CAPSLOCK, PULSADA) == caps,
        valor != PULSADA ==> siguiente_caps(caps, KEY_CAPSLOCK, valor) == caps,
{
}

/// Releases and autorepeats of any key leave the held modifiers as they
/// were, except that releasing a modifier releases it.
pub proof fn ley_soltar_no_pulsa(mods: Set<Modificador>, codigo: u16, valor: i32)
    requires
        valor != PULSADA,
    ensures
        siguientes_mods(mods, codigo, valor).subset_of(mods),
{
}

/// When a modifier is pressed, the label shown names it.
pub proof fn ley_modificador_visible(mods: Set<Modificador>, codigo: u16)
    requires
        modificador_de_spec(codigo) is Some,
    ensures
        partes_combo(siguientes_mods(mods, codigo, PULSADA), None).contains(
            nombre_spec(modificador_de_spec(codigo)->0),
        ),
{
    let m = modificador_de_spec(codigo)->0;
    let s = siguientes_mods(mods, codigo, PULSADA);
    let pred = |x: Modificador| s.contains(x);
    let i: int = match m {
        Modificador::Super => 0,
        Modificador::Ctrl => 1,
        Modificador::Alt => 2,
        Modificador::AltGr => 3,
        Modificador::Shift => 4,
    };
    assert(orden_spec()[i] == m);
    orden_spec().lemma_filter_contains(pred, i);
    let filtrados = orden_spec().filter(pred);
    let j = choose|j: int| 0 <= j < filtrados.len() && filtrados[j] == m;
    let nombres = filtrados.map_values(|x: Modificador| nombre_spec(x));
    assert(nombres[j] == nombre_spec(m));
}

/// A key whose xkb text is not printable (Enter, Tab, Backspace...) is
/// shown under its physical name, whatever modifiers are held.
pub proof fn ley_no_imprimible_usa_nombre_fisico(
    mods: Set<Modificador>,
    codigo: u16,
    texto: Seq<char>,
)
    requires
        !es_imprimible(texto),
    ensures
        combo_spec(
            mods,
            Some(etiqueta_spec(codigo, if es_imprimible(texto) { Some(texto) } else { None })),
        ) == combo_spec(mods, Some(nombre_tecla_evdev(codigo))),
{
}

/// Held modifiers after the key events `eventos` (code, value), in order,
/// starting from `mods`.
pub open spec fn mods_tras(mods: Set<Modificador>, eventos: Seq<(u16, i32)>) -> Set<Modificador>
    decreases eventos.len(),
{
    if eventos.len() == 0 {
        mods
    } else {
        siguientes_mods(mods_tras(mods, eventos.drop_last()), eventos.last().0, eventos.last().1)
    }
}

/// Caps Lock after the key events `eventos`, in order, starting from `caps`.
pub open spec fn caps_tras(caps: bool, eventos: Seq<(u16, i32)>) -> bool
    decreases eventos.len(),
{
    if eventos.len() == 0 {
        caps
    } else {
        siguiente_caps(caps_tras(caps, eventos.drop_last()), eventos.last().0, eventos.last().1)
    }
}

/// The value (press or release) of the latest press or release among
/// `eventos` of a key that stands for `m`, if there is one.
pub open spec fn ultimo_evento_de(eventos: Seq<(u16, i32)>, m: Modificador) -> Option<i32>
    decreases eventos.len(),
{
    if eventos.len() == 0 {
        None
    } else if modificador_de_spec(eventos.last().0) == Some(m) && (eventos.last().1 == PULSADA
        || eventos.last().1 == SOLTADA) {
        Some(eventos.last().1)
    } else {
        ultimo_evento_de(eventos.drop_last(), m)
    }
}

/// How many presses of Caps Lock `eventos` holds.
pub open spec fn pulsaciones_caps(eventos: Seq<(u16, i32)>) -> nat
    decreases eventos.len(),
{
    if eventos.len() == 0 {
        0
    } else if eventos.last().0 == KEY_CAPSLOCK && eventos.last().1 == PULSADA {
        pulsaciones_caps(eventos.drop_last()) + 1
    } else {
        pulsaciones_caps(eventos.drop_last())
    }
}

/// After any sequence of key events, a modifier is held exactly when the
/// latest press or release of a key standing for it was a press (releasing
/// the right Ctrl releases Ctrl even while the left one is down); with no
/// such event it is held as it was before.
pub proof fn ley_modificador_segun_ultimo_evento(
    mods: Set<Modificador>,
    eventos: Seq<(u16, i32)>,
    m: Modificador,
)
    ensures
        mods_tras(mods, eventos).contains(m) == match ultimo_evento_de(eventos, m) {
            Some(v) => v == PULSADA,
            None => mods.contains(m),
        },
    decreases eventos.len(),
{
    if eventos.len() > 0 {
        ley_modificador_segun_ultimo_evento(mods, eventos.drop_last(), m);
    }
}

/// After any sequence of key events, Caps Lock is its starting state
/// flipped once for each press of Caps Lock: releases and autorepeats do
/// not count.
pub proof fn ley_paridad_caps_lock(caps: bool, eventos: Seq<(u16, i32)>)
    ensures
        caps_tras(caps, eventos) == (caps != (pulsaciones_caps(eventos) % 2 == 1)),
    decreases eventos.len(),
{
    if eventos.len() > 0 {
        ley_paridad_caps_lock(caps, eventos.drop_last());
    }
}

/// Ctrl, Alt and Super each make a keystroke a shortcut, whatever else is
/// held; with none of them held (Shift and AltGr alone) it is not one.
pub proof fn ley_modificadores_de_atajo(mods: Set<Modificador>)
    ensures
        mods.contains(Modificador::Ctrl) ==> es_atajo_spec(mods),
        mods.contains(Modificador::Alt) ==> es_atajo_spec(mods),
        mods.contains(Modificador::Super) ==> es_atajo_spec(mods),
        !mods.contains(Modificador::Ctrl) && !mods.contains(Modificador::Alt) && !mods.contains(
            Modificador::Super,
        ) ==> !es_atajo_spec(mods),
{
}

} // verus!
