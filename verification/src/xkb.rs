//! The computations around an xkb keyboard-state lookup: the key code and
//! modifier masks handed to the xkb state, and the filter applied to the
//! text it gives back.

use vstd::prelude::*;
use vstd::string::*;

verus! {

/// The index that xkbcommon gives for a modifier that the keymap lacks
/// (e.g. AltGr in a layout without a third level). Shifting by it would
/// overflow, so every mask built from it is 0.
pub const MOD_INVALID: u32 = 0xffffffff;

/// evdev numbers keys physically; xkb keycodes are evdev codes plus this
/// historical X11 offset.
pub const DESPLAZAMIENTO_X11: u32 = 8;

/// A modifier index that can be turned into a mask: missing, or one of the
/// 32 bits of an xkb modifier mask.
pub open spec fn indice_valido(indice: u32) -> bool {
    indice == MOD_INVALID || indice < 32
}

/// The mask of a modifier given its resolved index; 0 when the keymap lacks
/// the modifier.
pub open spec fn mascara_spec(indice: u32) -> u32 {
    if indice == MOD_INVALID {
        0
    } else {
        (1u32 << indice) as u32
    }
}

/// Whether xkb's text for a key is something to show: not empty, and not
/// made of control characters alone (below U+0020, or DEL U+007F).
pub open spec fn es_imprimible(texto: Seq<char>) -> bool {
    exists|i: int| 0 <= i < texto.len() && #[trigger] texto[i] != '\u{7f}' && texto[i] as u32 >= 0x20
}

/// Mask of a modifier given its resolved index, or 0 when the modifier is
/// missing from the keymap (which avoids shifting by `MOD_INVALID`).
pub fn mascara(indice: u32) -> (r: u32)
    requires
        indice_valido(indice),
    ensures
        r == mascara_spec(indice),
{
    if indice == MOD_INVALID {
        0
    } else {
        1u32 << indice
    }
}

/// Keeps xkb's text when it is printable. Keys such as Enter or Tab give a
/// real control character ("\r", "\t"), not an empty string; such results
/// are dropped so that those keys fall back to their physical name.
pub fn filtrar_imprimible(texto: String) -> (r: Option<String>)
    ensures
        r == (if es_imprimible(texto@) { Some(texto) } else { None::<String> }),
        (exists|i: int| 0 <= i < texto@.len() && #[trigger] texto@[i] != '\u{7f}' && texto@[i] as u32 >= 0x20)
            ==> r == Some(texto),
        (forall|i: int| 0 <= i < texto@.len() ==> #[trigger] texto@[i] == '\u{7f}' || (texto@[i] as u32) < 0x20)
            ==> r is None,
{
    let n = texto.as_str().unicode_len();
    let mut i: usize = 0;
    while i < n
        invariant
            n == texto@.len(),
            i <= n,
            forall|j: int| 0 <= j < i ==> !(#[trigger] texto@[j] != '\u{7f}' && texto@[j] as u32 >= 0x20),
        decreases n - i,
    {
        let c = texto.as_str().get_char(i);
        if c != '\u{7f}' && c as u32 >= 0x20 {
            return Some(texto);
        }
        i = i + 1;
    }
    None
}

/// The modifier indices of a compiled keymap, resolved once rather than
/// looked up by name on every key press.
pub struct IndicesModificadores {
    shift: u32,
    altgr: u32,
    caps: u32,
}

/// What an xkb state lookup for one key is handed: the xkb keycode, the
/// depressed and locked modifier masks, and the locked layout group.
#[derive(Clone, Copy, PartialEq, Eq, Structural, Debug)]
pub struct ConsultaXkb {
    pub keycode: u32,
    pub mods_depressed: u32,
    pub mods_locked: u32,
    pub grupo: u32,
}

impl IndicesModificadores {
    #[verifier::type_invariant]
    spec fn bien_formado(self) -> bool {
        &&& indice_valido(self.shift)
        &&& indice_valido(self.altgr)
        &&& indice_valido(self.caps)
    }

    /// Index of the Shift modifier.
    pub closed spec fn shift_spec(self) -> u32 {
        self.shift
    }

    /// Index of the AltGr (Mod5) modifier.
    pub closed spec fn altgr_spec(self) -> u32 {
        self.altgr
    }

    /// Index of the Caps Lock modifier.
    pub closed spec fn caps_spec(self) -> u32 {
        self.caps
    }

    /// The depressed and locked modifier masks for the given key state.
    pub open spec fn mascaras_spec(self, shift: bool, altgr: bool, caps: bool) -> (u32, u32) {
        (
            (if shift { mascara_spec(self.shift_spec()) } else { 0u32 }) | (if altgr {
                mascara_spec(self.altgr_spec())
            } else {
                0u32
            }),
            if caps { mascara_spec(self.caps_spec()) } else { 0u32 },
        )
    }

    /// Records the indices that xkb resolved for Shift, AltGr (Mod5) and
    /// Lock. xkb gives either `MOD_INVALID` or an index below 32.
    pub fn new(shift: u32, altgr: u32, caps: u32) -> (r: IndicesModificadores)
        requires
            indice_valido(shift),
            indice_valido(altgr),
            indice_valido(caps),
        ensures
            r.shift_spec() == shift,
            r.altgr_spec() == altgr,
            r.caps_spec() == caps,
    {
        IndicesModificadores { shift, altgr, caps }
    }

    /// The depressed and locked modifier masks for the given key state.
    pub fn mascaras(&self, shift: bool, altgr: bool, caps: bool) -> (r: (u32, u32))
        ensures
            r == self.mascaras_spec(shift, altgr, caps),
    {
        proof {
            use_type_invariant(self);
        }
        let mut depressed: u32 = 0;
        if shift {
            depressed = depressed | mascara(self.shift);
        }
        if altgr {
            depressed = depressed | mascara(self.altgr);
        }
        let locked: u32 = if caps {
            mascara(self.caps)
        } else {
            0
        };
        proof {
            let a: u32 = if shift { mascara_spec(self.shift) } else { 0u32 };
            assert(0u32 | a == a) by (bit_vector);
            assert(a | 0u32 == a) by (bit_vector);
        }
        (depressed, locked)
    }

    /// What to hand the xkb state to look up the evdev key `evdev_code`
    /// (e.g. 30 for KEY_A) in layout group `grupo` with the given Shift,
    /// AltGr and Caps Lock state.
    pub fn consulta(&self, evdev_code: u32, shift: bool, altgr: bool, caps: bool, grupo: u32) -> (r:
        ConsultaXkb)
        requires
            evdev_code + DESPLAZAMIENTO_X11 <= u32::MAX,
        ensures
            r.keycode == evdev_code + DESPLAZAMIENTO_X11,
            (r.mods_depressed, r.mods_locked) == self.mascaras_spec(shift, altgr, caps),
            r.grupo == grupo,
    {
        let (mods_depressed, mods_locked) = self.mascaras(shift, altgr, caps);
        ConsultaXkb { keycode: evdev_code + DESPLAZAMIENTO_X11, mods_depressed, mods_locked, grupo }
    }
}

/// A text is dropped only when every one of its characters is a control
/// character (below U+0020, or DEL): one character of any other kind, a
/// letter of any script among them, makes the whole text printable.
pub proof fn ley_imprimible(texto: Seq<char>, i: int)
    ensures
        0 <= i < texto.len() && texto[i] != '\u{7f}' && texto[i] as u32 >= 0x20 ==> es_imprimible(
            texto,
        ),
        (forall|j: int| 0 <= j < texto.len() ==> #[trigger] texto[j] == '\u{7f}' || (texto[j] as u32)
            < 0x20) ==> !es_imprimible(texto),
{
}

/// The depressed mask holds the Shift bit exactly when Shift is asked for
/// and the AltGr bit exactly when AltGr is asked for, each whatever the
/// other is; the locked mask is the Caps Lock bit when Caps Lock is on and
/// nothing otherwise; with neither Shift nor AltGr nothing is depressed.
pub proof fn ley_mascaras(indices: IndicesModificadores, shift: bool, altgr: bool, caps: bool)
    ensures
        ({
            let (depressed, locked) = indices.mascaras_spec(shift, altgr, caps);
            let ms = mascara_spec(indices.shift_spec());
            let ma = mascara_spec(indices.altgr_spec());
            &&& shift ==> depressed & ms == ms
            &&& altgr ==> depressed & ma == ma
            &&& !shift && !altgr ==> depressed == 0
            &&& !shift ==> depressed | ma == ma
            &&& !altgr ==> depressed | ms == ms
            &&& locked == (if caps { mascara_spec(indices.caps_spec()) } else { 0 })
        }),
{
    let ms = mascara_spec(indices.shift_spec());
    let ma = mascara_spec(indices.altgr_spec());
    assert((ms | ma) & ms == ms) by (bit_vector);
    assert((ms | ma) & ma == ma) by (bit_vector);
    assert((0u32 | ma) & ma == ma) by (bit_vector);
    assert((ms | 0u32) & ms == ms) by (bit_vector);
    assert(0u32 | 0u32 == 0u32) by (bit_vector);
    assert((0u32 | ma) | ma == ma) by (bit_vector);
    assert((0u32 | 0u32) | ma == ma) by (bit_vector);
    assert((ms | 0u32) | ms == ms) by (bit_vector);
    assert((0u32 | 0u32) | ms == ms) by (bit_vector);
}

} // verus!
