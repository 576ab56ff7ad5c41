use keyviz::json::{analizar_json, como_natural, miembro, Json};

#[test]
fn parses_object_members() {
    let valor = analizar_json(br#"{"b":[1,-2,2.5,null,true],"a":"x"}"#).unwrap();
    assert_eq!(miembro(&valor, "a"), Some(&Json::Texto("x".to_string())));
    assert_eq!(
        miembro(&valor, "b"),
        Some(&Json::Lista(vec![
            Json::Natural(1),
            Json::Negativo(-2),
            Json::Decimal,
            Json::Nulo,
            Json::Booleano(true),
        ]))
    );
    assert_eq!(miembro(&valor, "c"), None);
}

#[test]
fn rejects_non_json() {
    assert_eq!(analizar_json(b"{"), None);
    assert_eq!(analizar_json(b"1 2"), None);
}

#[test]
fn duplicate_member_keeps_last() {
    let valor = analizar_json(br#"{"k":1,"k":2}"#).unwrap();
    assert_eq!(miembro(&valor, "k"), Some(&Json::Natural(2)));
}

#[test]
fn member_of_non_object_is_none() {
    let valor = analizar_json(b"[1]").unwrap();
    assert_eq!(miembro(&valor, "0"), None);
}

#[test]
fn natural_only_for_non_negative_integers() {
    assert_eq!(como_natural(&Json::Natural(7)), Some(7));
    assert_eq!(como_natural(&Json::Negativo(-7)), None);
    assert_eq!(como_natural(&Json::Decimal), None);
    assert_eq!(como_natural(&Json::Texto("7".to_string())), None);
}
