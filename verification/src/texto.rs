//! Sequences of characters split on a separator and joined with one.

use vstd::prelude::*;

verus! {

/// The pieces of `t` between occurrences of `sep`, from left to right.
/// There is always at least one piece: `t` with no `sep` in it is a single
/// piece, and every `sep` starts a new (possibly empty) piece.
pub open spec fn segmentos(t: Seq<char>, sep: char) -> Seq<Seq<char>>
    decreases t.len(),
{
    if t.len() == 0 {
        seq![Seq::<char>::empty()]
    } else {
        let previos = segmentos(t.drop_last(), sep);
        if t.last() == sep {
            previos.push(Seq::<char>::empty())
        } else {
            previos.update(previos.len() - 1, previos.last().push(t.last()))
        }
    }
}

/// The pieces of `partes` concatenated, with `sep` between each two of them.
pub open spec fn unir(partes: Seq<Seq<char>>, sep: char) -> Seq<char>
    decreases partes.len(),
{
    if partes.len() == 0 {
        Seq::<char>::empty()
    } else if partes.len() == 1 {
        partes[0]
    } else {
        unir(partes.drop_last(), sep) + seq![sep] + partes.last()
    }
}

/// `segmentos` never returns an empty list.
pub proof fn lema_segmentos_no_vacio(t: Seq<char>, sep: char)
    ensures
        segmentos(t, sep).len() >= 1,
    decreases t.len(),
{
    if t.len() > 0 {
        lema_segmentos_no_vacio(t.drop_last(), sep);
    }
}

/// Appending text without a separator extends only the last piece.
pub proof fn lema_segmentos_extiende(a: Seq<char>, b: Seq<char>, sep: char)
    requires
        !b.contains(sep),
    ensures
        segmentos(a + b, sep) == segmentos(a, sep).update(
            segmentos(a, sep).len() - 1,
            segmentos(a, sep).last() + b,
        ),
    decreases b.len(),
{
    lema_segmentos_no_vacio(a, sep);
    if b.len() == 0 {
        assert(a + b =~= a);
        assert(segmentos(a, sep).last() + b =~= segmentos(a, sep).last());
        assert(segmentos(a, sep).update(segmentos(a, sep).len() - 1, segmentos(a, sep).last())
            =~= segmentos(a, sep));
    } else {
        let b0 = b.drop_last();
        assert(!b0.contains(sep)) by {
            if b0.contains(sep) {
                let k = choose|k: int| 0 <= k < b0.len() && b0[k] == sep;
                assert(b[k] == sep);
            }
        }
        lema_segmentos_extiende(a, b0, sep);
        assert((a + b).drop_last() =~= a + b0);
        assert((a + b).last() == b.last());
        assert(b.last() != sep) by {
            assert(b[b.len() - 1] == b.last());
        }
        lema_segmentos_no_vacio(a + b0, sep);
        assert(segmentos(a, sep).last() + b0 + seq![b.last()] =~= segmentos(a, sep).last() + b);
        assert((segmentos(a, sep).last() + b0).push(b.last()) =~= segmentos(a, sep).last() + b);
        assert(segmentos(a + b, sep) =~= segmentos(a, sep).update(
            segmentos(a, sep).len() - 1,
            segmentos(a, sep).last() + b,
        ));
    }
}

/// Splitting on `sep` what `unir` joined with `sep` gives back the pieces,
/// provided there is at least one piece and no piece holds `sep`.
pub proof fn lema_segmentos_de_unir(partes: Seq<Seq<char>>, sep: char)
    requires
        partes.len() >= 1,
        forall|i: int| 0 <= i < partes.len() ==> !(#[trigger] partes[i]).contains(sep),
    ensures
        segmentos(unir(partes, sep), sep) == partes,
    decreases partes.len(),
{
    if partes.len() == 1 {
        lema_segmentos_extiende(Seq::<char>::empty(), partes[0], sep);
        assert(Seq::<char>::empty() + partes[0] =~= partes[0]);
        assert(segmentos(Seq::<char>::empty(), sep) =~= seq![Seq::<char>::empty()]);
        assert(Seq::<char>::empty() + partes[0] =~= partes[0]);
        assert(seq![Seq::<char>::empty()].update(0, Seq::<char>::empty() + partes[0]) =~= partes);
    } else {
        let previas = partes.drop_last();
        assert forall|i: int| 0 <= i < previas.len() implies !(#[trigger] previas[i]).contains(sep) by {
            assert(previas[i] == partes[i]);
        }
        lema_segmentos_de_unir(previas, sep);
        let cabeza = unir(previas, sep) + seq![sep];
        assert(cabeza.drop_last() =~= unir(previas, sep));
        assert(segmentos(cabeza, sep) == previas.push(Seq::<char>::empty()));
        assert(!partes.last().contains(sep)) by {
            assert(partes[partes.len() - 1] == partes.last());
        }
        lema_segmentos_extiende(cabeza, partes.last(), sep);
        assert(Seq::<char>::empty() + partes.last() =~= partes.last());
        assert(previas.push(Seq::<char>::empty()).update(previas.len() as int, partes.last())
            =~= partes);
    }
}

} // verus!
