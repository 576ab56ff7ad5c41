//! The active layout group as niri reports it, and the decisions of the
//! loop that keeps polling it.

use vstd::prelude::*;
use crate::json::{Json, analizar_json, como_natural, json_de, miembro, miembro_spec};

verus! {

/// The layout group for the `current_idx` that niri reported: the number
/// cut to its low 32 bits.
pub fn grupo_desde_indice(indice: u64) -> (r: u32)
    ensures
        r == indice as u32,
{
    indice as u32
}

/// The layout group that niri's output `salida` reports: the `current_idx`
/// member of the JSON object, when it is a non-negative integer, cut to its
/// low 32 bits.
pub open spec fn grupo_activo_spec(salida: Seq<u8>) -> Option<u32> {
    match json_de(salida) {
        Some(valor) => match miembro_spec(valor, "current_idx"@) {
            Some(Json::Natural(n)) => Some(n as u32),
            _ => None,
        },
        None => None,
    }
}

/// The active layout index in the output of `niri msg -j keyboard-layouts`:
/// the `current_idx` member of the JSON object, as a layout group. `None`
/// when the output is not JSON, or has no such member, or it is not an
/// unsigned integer.
pub fn grupo_activo_desde_json(salida: &[u8]) -> (r: Option<u32>)
    ensures
        r == grupo_activo_spec(salida@),
{
    let json = analizar_json(salida)?;
    let indice = miembro(&json, "current_idx")?;
    let valor = como_natural(indice)?;
    Some(grupo_desde_indice(valor))
}

/// What the layout-polling loop does after a read.
#[derive(Clone, Copy, PartialEq, Eq, Structural, Debug)]
pub enum Sondeo {
    /// Stop polling for good: the first read failed (a compositor other
    /// than niri, or `niri` not on the PATH), so there is no way to learn the
    /// active group this way.
    Detener,
    /// Set the active group to this value and keep polling.
    Fijar(u32),
    /// Keep the current group and keep polling.
    Mantener,
}

/// The polling decision for one read of the active group; `primera` tells
/// whether it was the first read.
pub fn paso_sondeo(primera: bool, lectura: Option<u32>) -> (r: Sondeo)
    ensures
        r == (match lectura {
            Some(g) => Sondeo::Fijar(g),
            None => if primera {
                Sondeo::Detener
            } else {
                Sondeo::Mantener
            },
        }),
{
    match lectura {
        Some(g) => Sondeo::Fijar(g),
        None => if primera {
            Sondeo::Detener
        } else {
            Sondeo::Mantener
        },
    }
}

} // verus!
