//! Held modifiers and the combination label shown for a keystroke.

use vstd::prelude::*;
use vstd::string::*;
use crate::texto::{unir, segmentos, lema_segmentos_de_unir};

verus! {

/// Separator between the parts of a combination (Unit Separator, U+001F).
/// No keyboard symbol is this control character, unlike `+`, which is a
/// key of its own (Shift+=) and would make the parts ambiguous.
pub const SEPARADOR_COMBO: char = '\u{1F}';

/// Linux input event codes (`linux/input-event-codes.h`) of the keys that
/// this module gives a meaning to.
pub const KEY_LEFTCTRL: u16 = 29;
pub const KEY_LEFTSHIFT: u16 = 42;
pub const KEY_RIGHTSHIFT: u16 = 54;
pub const KEY_LEFTALT: u16 = 56;
pub const KEY_CAPSLOCK: u16 = 58;
pub const KEY_RIGHTCTRL: u16 = 97;
pub const KEY_RIGHTALT: u16 = 100;
pub const KEY_LEFTMETA: u16 = 125;
pub const KEY_RIGHTMETA: u16 = 126;

/// A modifier, with left and right keys unified (but AltGr apart from Alt).
#[derive(Clone, Copy, PartialEq, Eq, Structural, Debug)]
pub enum Modificador {
    Super,
    Ctrl,
    Alt,
    AltGr,
    Shift,
}

/// The label of a modifier in a combination.
pub open spec fn nombre_spec(m: Modificador) -> Seq<char> {
    match m {
        Modificador::Super => "Super"@,
        Modificador::Ctrl => "Ctrl"@,
        Modificador::Alt => "Alt"@,
        Modificador::AltGr => "AltGr"@,
        Modificador::Shift => "Shift"@,
    }
}

/// The fixed order of modifiers in a combination.
pub open spec fn orden_spec() -> Seq<Modificador> {
    seq![
        Modificador::Super,
        Modificador::Ctrl,
        Modificador::Alt,
        Modificador::AltGr,
        Modificador::Shift,
    ]
}

/// The modifier that the key with event code `codigo` stands for, if any.
pub open spec fn modificador_de_spec(codigo: u16) -> Option<Modificador> {
    if codigo == KEY_LEFTCTRL || codigo == KEY_RIGHTCTRL {
        Some(Modificador::Ctrl)
    } else if codigo == KEY_LEFTSHIFT || codigo == KEY_RIGHTSHIFT {
        Some(Modificador::Shift)
    } else if codigo == KEY_LEFTALT {
        Some(Modificador::Alt)
    } else if codigo == KEY_RIGHTALT {
        Some(Modificador::AltGr)
    } else if codigo == KEY_LEFTMETA || codigo == KEY_RIGHTMETA {
        Some(Modificador::Super)
    } else {
        None
    }
}

/// The parts of a combination: the held modifiers in the fixed order, then
/// the main key's label, if there is one.
pub open spec fn partes_combo(mods: Set<Modificador>, tecla: Option<Seq<char>>) -> Seq<Seq<char>> {
    let nombres = orden_spec().filter(|m: Modificador| mods.contains(m)).map_values(
        |m: Modificador| nombre_spec(m),
    );
    match tecla {
        Some(t) => nombres.push(t),
        None => nombres,
    }
}

/// The combination label: its parts joined by the separator.
pub open spec fn combo_spec(mods: Set<Modificador>, tecla: Option<Seq<char>>) -> Seq<char> {
    unir(partes_combo(mods, tecla), SEPARADOR_COMBO)
}

impl Modificador {
    /// The label of this modifier.
    pub fn nombre(&self) -> (r: &'static str)
        ensures
            r@ == nombre_spec(*self),
    {
        match self {
            Modificador::Super => "Super",
            Modificador::Ctrl => "Ctrl",
            Modificador::Alt => "Alt",
            Modificador::AltGr => "AltGr",
            Modificador::Shift => "Shift",
        }
    }
}

/// Normalized modifier of a key (left and right unified), or `None` when the
/// key is not a modifier.
pub fn nombre_modificador(codigo: u16) -> (r: Option<Modificador>)
    ensures
        r == modificador_de_spec(codigo),
{
    if codigo == KEY_LEFTCTRL || codigo == KEY_RIGHTCTRL {
        Some(Modificador::Ctrl)
    } else if codigo == KEY_LEFTSHIFT || codigo == KEY_RIGHTSHIFT {
        Some(Modificador::Shift)
    } else if codigo == KEY_LEFTALT {
        Some(Modificador::Alt)
    } else if codigo == KEY_RIGHTALT {
        Some(Modificador::AltGr)
    } else if codigo == KEY_LEFTMETA || codigo == KEY_RIGHTMETA {
        Some(Modificador::Super)
    } else {
        None
    }
}

/// The set of modifiers currently held, one flag per modifier.
#[derive(Clone, Copy, PartialEq, Eq, Structural, Debug)]
pub struct Modificadores {
    pub super_: bool,
    pub ctrl: bool,
    pub alt: bool,
    pub altgr: bool,
    pub shift: bool,
}

impl Modificadores {
    pub open spec fn tiene(self, m: Modificador) -> bool {
        match m {
            Modificador::Super => self.super_,
            Modificador::Ctrl => self.ctrl,
            Modificador::Alt => self.alt,
            Modificador::AltGr => self.altgr,
            Modificador::Shift => self.shift,
        }
    }
}

impl View for Modificadores {
    type V = Set<Modificador>;

    open spec fn view(&self) -> Set<Modificador> {
        Set::new(|m: Modificador| self.tiene(m))
    }
}

impl Modificadores {
    /// No modifier held.
    pub fn new() -> (r: Modificadores)
        ensures
            r@ == Set::<Modificador>::empty(),
    {
        Modificadores { super_: false, ctrl: false, alt: false, altgr: false, shift: false }
    }

    /// Whether `m` is held.
    pub fn contiene(&self, m: Modificador) -> (r: bool)
        ensures
            r == self@.contains(m),
    {
        match m {
            Modificador::Super => self.super_,
            Modificador::Ctrl => self.ctrl,
            Modificador::Alt => self.alt,
            Modificador::AltGr => self.altgr,
            Modificador::Shift => self.shift,
        }
    }

    /// Marks `m` as held.
    pub fn insertar(&mut self, m: Modificador)
        ensures
            final(self)@ == old(self)@.insert(m),
    {
        match m {
            Modificador::Super => self.super_ = true,
            Modificador::Ctrl => self.ctrl = true,
            Modificador::Alt => self.alt = true,
            Modificador::AltGr => self.altgr = true,
            Modificador::Shift => self.shift = true,
        }
    }

    /// Marks `m` as released.
    pub fn quitar(&mut self, m: Modificador)
        ensures
            final(self)@ == old(self)@.remove(m),
    {
        match m {
            Modificador::Super => self.super_ = false,
            Modificador::Ctrl => self.ctrl = false,
            Modificador::Alt => self.alt = false,
            Modificador::AltGr => self.altgr = false,
            Modificador::Shift => self.shift = false,
        }
    }
}

/// Joins `partes` with the separator.
fn unir_partes(partes: &Vec<&str>) -> (r: String)
    ensures
        r@ == unir(partes@.map_values(|p: &str| p@), SEPARADOR_COMBO),
{
    let ghost vistas = partes@.map_values(|p: &str| p@);
    let sep = "\u{1F}";
    proof {
        reveal_strlit("\u{1F}");
        assert(sep@ =~= seq![SEPARADOR_COMBO]);
    }
    let mut r = String::new();
    assert(r@ =~= unir(vistas.take(0), SEPARADOR_COMBO));
    let n = partes.len();
    for i in 0..n
        invariant
            n == partes@.len(),
            vistas == partes@.map_values(|p: &str| p@),
            sep@ == seq![SEPARADOR_COMBO],
            r@ == unir(vistas.take(i as int), SEPARADOR_COMBO),
    {
        assert(vistas.take(i + 1).drop_last() =~= vistas.take(i as int));
        if i != 0 {
            r.append(sep);
        }
        r.append(partes[i]);
        assert(vistas.take(i + 1).last() == partes@[i as int]@);
        if i == 0 {
            assert(r@ =~= unir(vistas.take(1), SEPARADOR_COMBO));
        }
    }
    assert(vistas.take(n as int) =~= vistas);
    r
}

/// Builds the combination label, e.g. "Ctrl<SEP>Shift<SEP>KEY_K": the held
/// modifiers in the fixed order Super, Ctrl, Alt, AltGr, Shift, then the
/// main key, joined by `SEPARADOR_COMBO`.
pub fn construir_combo(mods: &Modificadores, tecla_principal: Option<&str>) -> (r: String)
    ensures
        r@ == combo_spec(
            mods@,
            match tecla_principal {
                Some(t) => Some(t@),
                None => None,
            },
        ),
{
    let orden: [Modificador; 5] = [
        Modificador::Super,
        Modificador::Ctrl,
        Modificador::Alt,
        Modificador::AltGr,
        Modificador::Shift,
    ];
    assert(orden@ =~= orden_spec());
    let mut partes: Vec<&str> = Vec::new();
    for i in 0..5
        invariant
            orden@ == orden_spec(),
            partes@.map_values(|p: &str| p@) == orden_spec().take(i as int).filter(
                |m: Modificador| mods@.contains(m),
            ).map_values(|m: Modificador| nombre_spec(m)),
    {
        let m = orden[i];
        let ghost antes = partes@;
        let ghost filtrados = orden_spec().take(i as int).filter(|m: Modificador| mods@.contains(m));
        assert(orden_spec().take(i + 1).drop_last() =~= orden_spec().take(i as int));
        assert(orden_spec().take(i + 1).last() == m);
        reveal(Seq::filter);
        if mods.contiene(m) {
            let nm = m.nombre();
            partes.push(nm);
            assert(orden_spec().take(i + 1).filter(|m: Modificador| mods@.contains(m)) == filtrados.push(m));
            assert(partes@ == antes.push(nm));
            assert(partes@.map_values(|p: &str| p@) =~= antes.map_values(|p: &str| p@).push(nombre_spec(m)));
            assert(filtrados.push(m).map_values(|m: Modificador| nombre_spec(m)) =~= filtrados.map_values(|m: Modificador| nombre_spec(m)).push(nombre_spec(m)));
        } else {
            assert(orden_spec().take(i + 1).filter(|m: Modificador| mods@.contains(m)) == filtrados);
        }
    }
    assert(orden_spec().take(5) =~= orden_spec());
    let ghost sin_tecla = partes@;
    if let Some(tecla) = tecla_principal {
        partes.push(tecla);
        assert(partes@.map_values(|p: &str| p@) =~= sin_tecla.map_values(|p: &str| p@).push(tecla@));
    }
    unir_partes(&partes)
}

/// No modifier label holds the separator.
proof fn lema_nombre_sin_separador(m: Modificador)
    ensures
        !nombre_spec(m).contains(SEPARADOR_COMBO),
{
    reveal_strlit("Super");
    reveal_strlit("Ctrl");
    reveal_strlit("Alt");
    reveal_strlit("AltGr");
    reveal_strlit("Shift");
    let n = nombre_spec(m);
    if n.contains(SEPARADOR_COMBO) {
        let k = choose|k: int| 0 <= k < n.len() && n[k] == SEPARADOR_COMBO;
        assert(n[k] == SEPARADOR_COMBO);
    }
}

/// Left and right keys of a modifier stand for the same modifier, and the
/// right Alt key is AltGr, apart from Alt.
pub proof fn ley_lados_unificados()
    ensures
        modificador_de_spec(KEY_LEFTCTRL) == modificador_de_spec(KEY_RIGHTCTRL),
        modificador_de_spec(KEY_LEFTSHIFT) == modificador_de_spec(KEY_RIGHTSHIFT),
        modificador_de_spec(KEY_LEFTMETA) == modificador_de_spec(KEY_RIGHTMETA),
        modificador_de_spec(KEY_LEFTALT) == Some(Modificador::Alt),
        modificador_de_spec(KEY_RIGHTALT) == Some(Modificador::AltGr),
{
}

/// A combination label can be split back into its parts on the separator:
/// the held modifiers in the fixed order, then the key, whenever there is
/// at least one part and the key's label holds no separator.
pub proof fn ley_combo_separable(mods: Set<Modificador>, tecla: Option<Seq<char>>)
    requires
        tecla is Some || exists|m: Modificador| mods.contains(m),
        tecla matches Some(t) ==> !t.contains(SEPARADOR_COMBO),
    ensures
        segmentos(combo_spec(mods, tecla), SEPARADOR_COMBO) == partes_combo(mods, tecla),
{
    let pred = |m: Modificador| mods.contains(m);
    let filtrados = orden_spec().filter(pred);
    let nombres = filtrados.map_values(|m: Modificador| nombre_spec(m));
    let partes = partes_combo(mods, tecla);
    assert(partes == match tecla {
        Some(t) => nombres.push(t),
        None => nombres,
    });
    if tecla is None {
        let m = choose|m: Modificador| mods.contains(m);
        let i: int = match m {
            Modificador::Super => 0,
            Modificador::Ctrl => 1,
            Modificador::Alt => 2,
            Modificador::AltGr => 3,
            Modificador::Shift => 4,
        };
        assert(orden_spec()[i] == m);
        orden_spec().lemma_filter_contains(pred, i);
        assert(filtrados.len() >= 1);
    }
    assert forall|i: int| 0 <= i < partes.len() implies !(#[trigger] partes[i]).contains(
        SEPARADOR_COMBO,
    ) by {
        if i < nombres.len() {
            assert(nombres[i] == nombre_spec(filtrados[i]));
            lema_nombre_sin_separador(filtrados[i]);
        }
    }
    lema_segmentos_de_unir(partes, SEPARADOR_COMBO);
}

/// With a main key, the label lists the same modifiers as without one and
/// then the key; every held modifier's name is one of its parts.
pub proof fn ley_combo_con_tecla(mods: Set<Modificador>, tecla: Seq<char>, m: Modificador)
    ensures
        partes_combo(mods, Some(tecla)) == partes_combo(mods, None).push(tecla),
        partes_combo(mods, Some(tecla)).last() == tecla,
        mods.contains(m) ==> partes_combo(mods, Some(tecla)).contains(nombre_spec(m)),
        mods.contains(m) ==> partes_combo(mods, None).contains(nombre_spec(m)),
{
    if mods.contains(m) {
        let pred = |x: Modificador| mods.contains(x);
        let i: int = match m {
            Modificador::Super => 0,
            Modificador::Ctrl => 1,
            Modificador::Alt => 2,
            Modificador::AltGr => 3,
            Modificador::Shift => 4,
        };
        assert(orden_spec()[i] == m);
        orden_spec().lemma_filter_contains(pred, i);
        let filtrados = orden_spec().filter(pred);
        let j = choose|j: int| 0 <= j < filtrados.len() && filtrados[j] == m;
        let nombres = filtrados.map_values(|x: Modificador| nombre_spec(x));
        assert(nombres[j] == nombre_spec(m));
        assert(nombres.push(tecla)[j] == nombre_spec(m));
    }
}

} // verus!
