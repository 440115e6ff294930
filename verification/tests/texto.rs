use cheetah::texto::{caracteres, concatenar, dividir, iguales, numero, recortable, separar_datetime, ultimos_ocho};

#[test]
fn separa_fecha_y_hora() {
    assert_eq!(separar_datetime("2019-05-13T10:20:30"), ("2019-05-13".to_string(), "10:20:30".to_string()));
    assert_eq!(separar_datetime("aTbTc"), ("a".to_string(), "b".to_string()));
    assert_eq!(separar_datetime("T"), ("".to_string(), "".to_string()));
}

#[test]
fn fecha_y_hora_se_vuelven_a_unir() {
    let f = "2020-12-31T23:59:59";
    let (d, t) = separar_datetime(f);
    assert_eq!(format!("{}T{}", d, t), f);
}

#[test]
fn divide_como_split() {
    let casos = ["", "a", "a,b", ",a,,b,", "ñ,é", "abab"];
    for s in casos.iter() {
        let esperado: Vec<String> = s.split(",").map(|x| x.to_string()).collect();
        assert_eq!(dividir(s, ","), esperado);
    }
    let largo: Vec<String> = "x<a:Estado>y<a:Estado>z".split("<a:Estado>").map(|x| x.to_string()).collect();
    assert_eq!(dividir("x<a:Estado>y<a:Estado>z", "<a:Estado>"), largo);
    assert_eq!(dividir("aaa", "aa"), vec!["".to_string(), "a".to_string()]);
}

#[test]
fn las_partes_unidas_dan_el_texto() {
    for s in ["", "a,b", ",,", "x,y,z,"].iter() {
        assert_eq!(dividir(s, ",").join(","), *s);
    }
    assert_eq!(dividir("a<b>c<b>", "<b>").join("<b>"), "a<b>c<b>");
}

#[test]
fn numerales_decimales() {
    assert_eq!(numero(0), "0");
    assert_eq!(numero(7), "7");
    assert_eq!(numero(10), "10");
    assert_eq!(numero(12345), "12345");
    assert_eq!(numero(u128::MAX), u128::MAX.to_string());
}

#[test]
fn igualdad_y_caracteres() {
    assert!(iguales("año", "año"));
    assert!(!iguales("año", "ano"));
    assert!(!iguales("a", "ab"));
    assert_eq!(caracteres("ñu"), vec!['ñ', 'u']);
    assert_eq!(concatenar(&["a", "", "bc"]), "abc");
}

#[test]
fn cola_del_sello() {
    assert!(recortable("12345678"));
    assert_eq!(ultimos_ocho("abc12345678"), "12345678");
    assert!(!recortable("1234567"));
    assert!(recortable("ab€12345"));
    assert_eq!(ultimos_ocho("ab€12345"), "€12345");
    assert!(!recortable("a€1234567"));
}
