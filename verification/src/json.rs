//! A JSON document as the library holds it, read by serde_json.

use vstd::prelude::*;

verus! {

/// A JSON value. Numbers are told apart as serde_json tells them apart:
/// non-negative integers, negative integers, and the rest (numbers with a
/// fraction or an exponent), whose value is not kept. An object keeps its
/// members in the order serde_json's map hands them out.
#[derive(Debug, PartialEq)]
pub enum Json {
    Nulo,
    Booleano(bool),
    Natural(u64),
    Negativo(i64),
    Decimal,
    Texto(String),
    Lista(Vec<Json>),
    Objeto(Vec<(String, Json)>),
}

#[verifier::external_type_specification]
#[verifier::external_body]
pub struct ExValue(serde_json::Value);

/// The value serde_json reads from `bytes`, held as a `Json`; `None` when
/// serde_json rejects the bytes.
pub uninterp spec fn json_de(bytes: Seq<u8>) -> Option<Json>;

/// Converts a `serde_json::Value` into a `Json`, variant by variant, one arm
/// each. A `serde_json::Number` keeps its kind private; `as_u64` and `as_i64`
/// tell its three kinds apart (non-negative, negative, floating). This is the
/// conversion step of `analizar_json`, whose contract covers it.
#[verifier::external_body]
fn convertir_valor(valor: serde_json::Value) -> Json {
    match valor {
        serde_json::Value::Null => Json::Nulo,
        serde_json::Value::Bool(b) => Json::Booleano(b),
        serde_json::Value::Number(n) => match (n.as_u64(), n.as_i64()) {
            (Some(u), _) => Json::Natural(u),
            (None, Some(i)) => Json::Negativo(i),
            (None, None) => Json::Decimal,
        },
        serde_json::Value::String(s) => Json::Texto(s),
        serde_json::Value::Array(a) => Json::Lista(a.into_iter().map(convertir_valor).collect()),
        serde_json::Value::Object(o) => Json::Objeto(
            o.into_iter().map(|(k, v)| (k, convertir_valor(v))).collect(),
        ),
    }
}

/// `serde_json::from_slice::<serde_json::Value>` with its error dropped, the
/// value converted into a `Json`. The result is a function of the bytes
/// alone, named `json_de`.
#[verifier::external_body]
pub fn analizar_json(bytes: &[u8]) -> (r: Option<Json>)
    ensures
        r == json_de(bytes@),
{
    serde_json::from_slice::<serde_json::Value>(bytes).ok().map(convertir_valor)
}

/// The value of the member named `clave` among `miembros`; when the name
/// occurs more than once, the last one.
pub open spec fn buscar_miembro(miembros: Seq<(String, Json)>, clave: Seq<char>) -> Option<Json>
    decreases miembros.len(),
{
    if miembros.len() == 0 {
        None
    } else if miembros.last().0@ == clave {
        Some(miembros.last().1)
    } else {
        buscar_miembro(miembros.drop_last(), clave)
    }
}

/// The member named `clave` of an object; `None` for anything else.
pub open spec fn miembro_spec(valor: Json, clave: Seq<char>) -> Option<Json> {
    match valor {
        Json::Objeto(miembros) => buscar_miembro(miembros@, clave),
        _ => None,
    }
}

/// The member named `clave` of `valor` when it is an object
/// (`serde_json::Value::get` with a string key).
pub fn miembro<'a>(valor: &'a Json, clave: &str) -> (r: Option<&'a Json>)
    ensures
        r matches Some(x) ==> miembro_spec(*valor, clave@) == Some(*x),
        r is None ==> miembro_spec(*valor, clave@) is None,
{
    match valor {
        Json::Objeto(miembros) => {
            let clave_s = clave.to_owned();
            let mut encontrado: Option<&'a Json> = None;
            let n = miembros.len();
            for i in 0..n
                invariant
                    n == miembros@.len(),
                    clave_s@ == clave@,
                    encontrado matches Some(x) ==> buscar_miembro(miembros@.take(i as int), clave@)
                        == Some(*x),
                    encontrado is None ==> buscar_miembro(miembros@.take(i as int), clave@) is None,
            {
                assert(miembros@.take(i + 1).drop_last() =~= miembros@.take(i as int));
                assert(miembros@.take(i + 1).last() == miembros@[i as int]);
                let entrada = &miembros[i];
                if entrada.0 == clave_s {
                    encontrado = Some(&entrada.1);
                }
            }
            assert(miembros@.take(n as int) =~= miembros@);
            encontrado
        },
        _ => None,
    }
}

/// The value as a u64 when it is a non-negative integer
/// (`serde_json::Value::as_u64`).
pub fn como_natural(valor: &Json) -> (r: Option<u64>)
    ensures
        r == (match *valor {
            Json::Natural(n) => Some(n),
            _ => None,
        }),
{
    match valor {
        Json::Natural(n) => Some(*n),
        _ => None,
    }
}

} // verus!
