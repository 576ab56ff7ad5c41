//! The X11 keyboard layout, variant and options in the output of
//! `localectl status`.

use vstd::prelude::*;
use vstd::string::*;
use crate::texto::{segmentos, lema_segmentos_no_vacio};

verus! {

/// Whether `c` is white space in the sense of `char::is_whitespace`
/// (the Unicode White_Space property).
pub open spec fn es_espacio(c: char) -> bool {
    let n = c as u32;
    ||| 0x09 <= n <= 0x0d
    ||| n == 0x20
    ||| n == 0x85
    ||| n == 0xa0
    ||| n == 0x1680
    ||| 0x2000 <= n <= 0x200a
    ||| n == 0x2028
    ||| n == 0x2029
    ||| n == 0x202f
    ||| n == 0x205f
    ||| n == 0x3000
}

/// `s` without its leading white space.
pub open spec fn sin_espacio_inicial(s: Seq<char>) -> Seq<char>
    decreases s.len(),
{
    if s.len() > 0 && es_espacio(s[0]) {
        sin_espacio_inicial(s.drop_first())
    } else {
        s
    }
}

/// `s` without its trailing white space.
pub open spec fn sin_espacio_final(s: Seq<char>) -> Seq<char>
    decreases s.len(),
{
    if s.len() > 0 && es_espacio(s.last()) {
        sin_espacio_final(s.drop_last())
    } else {
        s
    }
}

/// `s` without leading and trailing white space, as `str::trim` gives it.
pub open spec fn recortar(s: Seq<char>) -> Seq<char> {
    sin_espacio_final(sin_espacio_inicial(s))
}

/// Whether `s` begins with `p`.
pub open spec fn empieza_con(s: Seq<char>, p: Seq<char>) -> bool {
    p.len() <= s.len() && s.take(p.len() as int) == p
}

pub open spec fn prefijo_layout() -> Seq<char> {
    "X11 Layout:"@
}

pub open spec fn prefijo_variant() -> Seq<char> {
    "X11 Variant:"@
}

pub open spec fn prefijo_options() -> Seq<char> {
    "X11 Options:"@
}

/// Layout, variant and options after one more line: a line that, trimmed,
/// starts with one of the three labels sets that field to the trimmed rest.
pub open spec fn aplicar_linea(
    campos: (Seq<char>, Seq<char>, Seq<char>),
    linea: Seq<char>,
) -> (Seq<char>, Seq<char>, Seq<char>) {
    let l = recortar(linea);
    if empieza_con(l, prefijo_layout()) {
        (recortar(l.skip(prefijo_layout().len() as int)), campos.1, campos.2)
    } else if empieza_con(l, prefijo_variant()) {
        (campos.0, recortar(l.skip(prefijo_variant().len() as int)), campos.2)
    } else if empieza_con(l, prefijo_options()) {
        (campos.0, campos.1, recortar(l.skip(prefijo_options().len() as int)))
    } else {
        campos
    }
}

/// Layout, variant and options after reading `lineas` in order, starting
/// from three empty fields: each field holds the value of the last line
/// that sets it.
pub open spec fn campos_de_lineas(lineas: Seq<Seq<char>>) -> (Seq<char>, Seq<char>, Seq<char>)
    decreases lineas.len(),
{
    if lineas.len() == 0 {
        (Seq::<char>::empty(), Seq::<char>::empty(), Seq::<char>::empty())
    } else {
        aplicar_linea(campos_de_lineas(lineas.drop_last()), lineas.last())
    }
}

/// What `localectl status` output `texto` says of the X11 layout: `None`
/// when no layout is given, else layout, variant and options. The lines are
/// the pieces between newlines; a carriage return before a newline, or an
/// empty last line, changes nothing since every line is trimmed.
pub open spec fn analisis_localectl(texto: Seq<char>) -> Option<(Seq<char>, Seq<char>, Seq<char>)> {
    let campos = campos_de_lineas(segmentos(texto, '\n'));
    if campos.0.len() == 0 {
        None
    } else {
        Some(campos)
    }
}

/// Whether `c` is white space, as `char::is_whitespace` says.
pub fn es_espacio_exec(c: char) -> (r: bool)
    ensures
        r == es_espacio(c),
{
    let n = c as u32;
    (0x09 <= n && n <= 0x0d) || n == 0x20 || n == 0x85 || n == 0xa0 || n == 0x1680 || (0x2000 <= n
        && n <= 0x200a) || n == 0x2028 || n == 0x2029 || n == 0x202f || n == 0x205f || n == 0x3000
}

proof fn lema_sin_espacio_inicial(s: Seq<char>, i: int)
    requires
        0 <= i <= s.len(),
        forall|k: int| 0 <= k < i ==> es_espacio(#[trigger] s[k]),
    ensures
        sin_espacio_inicial(s) == sin_espacio_inicial(s.subrange(i, s.len() as int)),
    decreases i,
{
    if i == 0 {
        assert(s.subrange(0, s.len() as int) =~= s);
    } else {
        assert(es_espacio(s[0]));
        let t = s.drop_first();
        assert forall|k: int| 0 <= k < i - 1 implies es_espacio(#[trigger] t[k]) by {
            assert(t[k] == s[k + 1]);
        }
        lema_sin_espacio_inicial(t, i - 1);
        assert(t.subrange(i - 1, t.len() as int) =~= s.subrange(i, s.len() as int));
    }
}

proof fn lema_sin_espacio_final(s: Seq<char>, j: int)
    requires
        0 <= j <= s.len(),
        forall|k: int| j <= k < s.len() ==> es_espacio(#[trigger] s[k]),
    ensures
        sin_espacio_final(s) == sin_espacio_final(s.subrange(0, j)),
    decreases s.len() - j,
{
    if j == s.len() {
        assert(s.subrange(0, j) =~= s);
    } else {
        assert(es_espacio(s[s.len() - 1]));
        let t = s.drop_last();
        assert forall|k: int| j <= k < t.len() implies es_espacio(#[trigger] t[k]) by {
            assert(t[k] == s[k]);
        }
        lema_sin_espacio_final(t, j);
        assert(t.subrange(0, j) =~= s.subrange(0, j));
    }
}

/// `s` without leading and trailing white space (`str::trim`).
pub fn recortar_str(s: &str) -> (r: &str)
    ensures
        r@ == recortar(s@),
{
    let n = s.unicode_len();
    let mut i: usize = 0;
    while i < n && es_espacio_exec(s.get_char(i))
        invariant
            n == s@.len(),
            i <= n,
            forall|k: int| 0 <= k < i ==> es_espacio(#[trigger] s@[k]),
        decreases n - i,
    {
        i = i + 1;
    }
    proof {
        lema_sin_espacio_inicial(s@, i as int);
    }
    let ghost resto = s@.subrange(i as int, n as int);
    assert(sin_espacio_inicial(resto) == resto) by {
        if resto.len() > 0 {
            assert(resto[0] == s@[i as int]);
        }
    }
    let mut j: usize = n;
    while j > i && es_espacio_exec(s.get_char(j - 1))
        invariant
            n == s@.len(),
            i <= j <= n,
            resto == s@.subrange(i as int, n as int),
            forall|k: int| j <= k < n ==> es_espacio(#[trigger] s@[k]),
        decreases j,
    {
        j = j - 1;
    }
    proof {
        assert forall|k: int| j - i <= k < resto.len() implies es_espacio(#[trigger] resto[k]) by {
            assert(resto[k] == s@[k + i]);
        }
        lema_sin_espacio_final(resto, j - i);
        let fin = resto.subrange(0, j - i);
        assert(fin =~= s@.subrange(i as int, j as int));
        assert(sin_espacio_final(fin) == fin) by {
            if fin.len() > 0 {
                assert(fin.last() == s@[j - 1]);
            }
        }
    }
    s.substring_char(i, j)
}

/// The rest of `s` after the prefix `p`, if `s` begins with `p`
/// (`str::strip_prefix`).
pub fn quitar_prefijo<'a>(s: &'a str, p: &str) -> (r: Option<&'a str>)
    ensures
        r matches Some(resto) ==> empieza_con(s@, p@) && resto@ == s@.skip(p@.len() as int),
        r is None ==> !empieza_con(s@, p@),
{
    let n = s.unicode_len();
    let m = p.unicode_len();
    if m > n {
        return None;
    }
    let mut k: usize = 0;
    while k < m
        invariant
            n == s@.len(),
            m == p@.len(),
            m <= n,
            k <= m,
            forall|q: int| 0 <= q < k ==> s@[q] == p@[q],
        decreases m - k,
    {
        if s.get_char(k) != p.get_char(k) {
            assert(s@.take(m as int)[k as int] != p@[k as int]);
            return None;
        }
        k = k + 1;
    }
    assert(s@.take(m as int) =~= p@);
    let resto = s.substring_char(m, n);
    assert(resto@ =~= s@.skip(m as int));
    Some(resto)
}

/// Layout, variant and options after one more line (see `aplicar_linea`).
fn procesar_linea(layout: &mut String, variant: &mut String, options: &mut String, linea: &str)
    ensures
        (final(layout)@, final(variant)@, final(options)@) == aplicar_linea(
            (old(layout)@, old(variant)@, old(options)@),
            linea@,
        ),
{
    let l = recortar_str(linea);
    let pl = "X11 Layout:";
    let pv = "X11 Variant:";
    let po = "X11 Options:";
    if let Some(v) = quitar_prefijo(l, pl) {
        *layout = recortar_str(v).to_owned();
    } else if let Some(v) = quitar_prefijo(l, pv) {
        *variant = recortar_str(v).to_owned();
    } else if let Some(v) = quitar_prefijo(l, po) {
        *options = recortar_str(v).to_owned();
    }
}

/// Reads the X11 layout (e.g. "us,ru"), variant and options (e.g.
/// "grp:caps_toggle") from the output of `localectl status`. When a label
/// occurs on several lines the last one counts. `None` when no layout is
/// given.
pub fn analizar_localectl(texto: &str) -> (r: Option<(String, String, String)>)
    ensures
        r matches Some(c) ==> analisis_localectl(texto@) == Some((c.0@, c.1@, c.2@)),
        r is None ==> analisis_localectl(texto@) is None,
{
    let ghost t = texto@;
    let n = texto.unicode_len();
    let mut layout = String::new();
    let mut variant = String::new();
    let mut options = String::new();
    let mut inicio: usize = 0;
    let mut i: usize = 0;
    assert(t.take(0) =~= Seq::<char>::empty());
    assert(segmentos(t.take(0), '\n').drop_last() =~= Seq::<Seq<char>>::empty());
    while i < n
        invariant
            n == t.len(),
            t == texto@,
            inicio <= i <= n,
            campos_de_lineas(segmentos(t.take(i as int), '\n').drop_last()) == (
                layout@,
                variant@,
                options@,
            ),
            segmentos(t.take(i as int), '\n').last() == t.subrange(inicio as int, i as int),
        decreases n - i,
    {
        let ghost antes = segmentos(t.take(i as int), '\n');
        proof {
            lema_segmentos_no_vacio(t.take(i as int), '\n');
            assert(t.take(i + 1).drop_last() =~= t.take(i as int));
            assert(t.take(i + 1).last() == t[i as int]);
            assert(antes =~= antes.drop_last().push(antes.last()));
        }
        let c = texto.get_char(i);
        if c == '\n' {
            let linea = texto.substring_char(inicio, i);
            procesar_linea(&mut layout, &mut variant, &mut options, linea);
            inicio = i + 1;
            proof {
                let despues = segmentos(t.take(i + 1), '\n');
                assert(despues.drop_last() =~= antes);
                assert(t.subrange(inicio as int, i + 1) =~= Seq::<char>::empty());
            }
        } else {
            proof {
                let despues = segmentos(t.take(i + 1), '\n');
                assert(despues.drop_last() =~= antes.drop_last());
                assert(t.subrange(inicio as int, i + 1) =~= t.subrange(inicio as int, i as int).push(c));
            }
        }
        i = i + 1;
    }
    let ultima = texto.substring_char(inicio, n);
    proof {
        let segs = segmentos(t.take(n as int), '\n');
        lema_segmentos_no_vacio(t.take(n as int), '\n');
        assert(t.take(n as int) =~= t);
        assert(segs =~= segs.drop_last().push(segs.last()));
    }
    procesar_linea(&mut layout, &mut variant, &mut options, ultima);
    if layout.as_str().unicode_len() == 0 {
        return None;
    }
    Some((layout, variant, options))
}

/// `s` is left alone by trimming when it neither starts nor ends with white
/// space.
proof fn lema_recortar_sin_bordes(s: Seq<char>)
    requires
        s.len() > 0,
        !es_espacio(s[0]),
        !es_espacio(s.last()),
    ensures
        recortar(s) == s,
{
}

/// What the three labels look like, character by character.
proof fn lema_prefijos()
    ensures
        prefijo_layout().len() == 11,
        prefijo_variant().len() == 12,
        prefijo_options().len() == 12,
        prefijo_layout()[0] == 'X' && prefijo_variant()[0] == 'X' && prefijo_options()[0] == 'X',
        prefijo_layout()[4] == 'L' && prefijo_variant()[4] == 'V' && prefijo_options()[4] == 'O',
        prefijo_layout()[10] == ':' && prefijo_variant()[11] == ':' && prefijo_options()[11] == ':',
{
    reveal_strlit("X11 Layout:");
    reveal_strlit("X11 Variant:");
    reveal_strlit("X11 Options:");
}

/// A value with no white space at either end (possibly empty).
pub open spec fn sin_bordes(v: Seq<char>) -> bool {
    v.len() == 0 || (!es_espacio(v[0]) && !es_espacio(v.last()))
}

/// The line made of `etiqueta` followed by `valor` is its own trim, begins
/// with the label, and leaves `valor` whole after the label.
proof fn lema_linea_con_valor(etiqueta: Seq<char>, valor: Seq<char>)
    requires
        sin_bordes(valor),
        etiqueta.len() >= 1,
        etiqueta[0] == 'X',
        etiqueta.last() == ':',
    ensures
        recortar(etiqueta + valor) == etiqueta + valor,
        (etiqueta + valor).skip(etiqueta.len() as int) == valor,
        recortar(valor) == valor,
        empieza_con(etiqueta + valor, etiqueta),
{
    let linea = etiqueta + valor;
    assert(linea[0] == 'X');
    assert(!es_espacio('X'));
    assert(!es_espacio(':'));
    if valor.len() > 0 {
        assert(linea.last() == valor.last());
        lema_recortar_sin_bordes(valor);
    } else {
        assert(linea.last() == ':');
        assert(valor =~= Seq::<char>::empty());
    }
    lema_recortar_sin_bordes(linea);
    assert(linea.skip(etiqueta.len() as int) =~= valor);
    assert(linea.take(etiqueta.len() as int) =~= etiqueta);
}

/// A line "X11 Layout:", "X11 Variant:" or "X11 Options:" followed by a
/// value with no white space at either end sets that field to the whole
/// value (commas included) and leaves the other two as they were.
pub proof fn ley_linea_fija_campo(campos: (Seq<char>, Seq<char>, Seq<char>), valor: Seq<char>)
    requires
        sin_bordes(valor),
    ensures
        aplicar_linea(campos, prefijo_layout() + valor) == (valor, campos.1, campos.2),
        aplicar_linea(campos, prefijo_variant() + valor) == (campos.0, valor, campos.2),
        aplicar_linea(campos, prefijo_options() + valor) == (campos.0, campos.1, valor),
{
    lema_prefijos();
    lema_linea_con_valor(prefijo_layout(), valor);
    lema_linea_con_valor(prefijo_variant(), valor);
    lema_linea_con_valor(prefijo_options(), valor);
    let lv = prefijo_variant() + valor;
    let lo = prefijo_options() + valor;
    assert(!empieza_con(lv, prefijo_layout())) by {
        if empieza_con(lv, prefijo_layout()) {
            assert(lv.take(11)[4] == prefijo_layout()[4]);
            assert(lv[4] == prefijo_variant()[4]);
        }
    }
    assert(!empieza_con(lo, prefijo_layout())) by {
        if empieza_con(lo, prefijo_layout()) {
            assert(lo.take(11)[4] == prefijo_layout()[4]);
            assert(lo[4] == prefijo_options()[4]);
        }
    }
    assert(!empieza_con(lo, prefijo_variant())) by {
        if empieza_con(lo, prefijo_variant()) {
            assert(lo.take(12)[4] == prefijo_variant()[4]);
            assert(lo[4] == prefijo_options()[4]);
        }
    }
}

} // verus!
