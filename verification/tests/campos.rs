use cheetah::campos::{
    completar_impuesto, forma_pago, mandar_datos_web_view, mandar_datos_web_view_cabe, metodo_pago,
    regimen_fiscal, tipo_cfdi, tipo_relacion, uso_cfdi,
};
use cheetah::catalogos::{buscar_forma_pago_desc, buscar_regimen_fiscal_desc, buscar_tipo_comprobante, buscar_uso_cfdi_desc};
use cheetah::dinero::dinero;
use cheetah::xml::Elemento;

fn con(atributos: &[(&str, &str)]) -> Elemento {
    Elemento {
        nombre: "X".to_string(),
        atributos: atributos.iter().map(|(k, v)| (k.to_string(), v.to_string())).collect(),
        hijos: vec![],
    }
}

#[test]
fn completa_impuestos() {
    assert_eq!(completar_impuesto("001"), "001-ISR");
    assert_eq!(completar_impuesto("002"), "002-IVA");
    assert_eq!(completar_impuesto("003"), "003-IEPS");
    assert_eq!(completar_impuesto("004"), "004");
    assert_eq!(completar_impuesto(""), "");
    assert_eq!(completar_impuesto(&completar_impuesto("001")), "001-ISR");
}

#[test]
fn tipo_de_comprobante() {
    assert_eq!(
        tipo_cfdi(&con(&[("TipoDeComprobante", "N")])),
        Some("rellenarCabe('tipoComp', 'Tipo Comprobante', 'N - Nómina')".to_string())
    );
    assert_eq!(tipo_cfdi(&con(&[("TipoDeComprobante", "Z")])), None);
    assert_eq!(tipo_cfdi(&con(&[])), None);
}

#[test]
fn relacion_regimen_y_uso() {
    assert_eq!(
        tipo_relacion(&con(&[("TipoRelacion", "07")])),
        Some("rellenarRelacionadosCabe('07 - CFDI por aplicación de anticipo')".to_string())
    );
    assert_eq!(tipo_relacion(&con(&[("TipoRelacion", "10")])), None);
    assert_eq!(
        regimen_fiscal(&con(&[("RegimenFiscal", "630")])),
        Some("rellenar('regimenEmi', 'Regimen Fiscal', '630 - Enajenación de acciones en bolsa de valores')".to_string())
    );
    assert_eq!(regimen_fiscal(&con(&[("RegimenFiscal", "602")])), None);
    assert_eq!(
        uso_cfdi(&con(&[("UsoCFDI", "P01")])),
        Some("rellenar('usoCfdi', 'Uso CFDI', 'P01 - Por definir')".to_string())
    );
    assert_eq!(uso_cfdi(&con(&[("UsoCFDI", "p01")])), None);
}

#[test]
fn metodo_y_forma_de_pago() {
    assert_eq!(metodo_pago(&con(&[("MetodoPago", "PPD")]), "MetodoPago"), "PPD - Pago en parcialidades o diferido");
    assert_eq!(metodo_pago(&con(&[("MetodoPago", "PUE")]), "MetodoPago"), "PUE - Pago en una sola exhibición");
    assert_eq!(metodo_pago(&con(&[("MetodoPago", "OTRO")]), "MetodoPago"), "OTRO");
    assert_eq!(forma_pago(&con(&[("FormaPago", "99")]), "FormaPago"), "99 - Por definir");
    assert_eq!(forma_pago(&con(&[("FormaPago", "07")]), "FormaPago"), "07");
    assert_eq!(forma_pago(&con(&[("F", "28")]), "F"), "28 - Tarjeta de débito");
}

#[test]
fn campos_de_la_vista() {
    let e = con(&[("Moneda", "USD")]);
    assert_eq!(
        mandar_datos_web_view(&e, "Moneda", "moneda", "Moneda"),
        ("rellenar('moneda', 'Moneda', 'USD')".to_string(), "USD".to_string())
    );
    assert_eq!(
        mandar_datos_web_view_cabe(&e, "Serie", "serie", "Serie"),
        ("rellenarCabe('serie', 'Serie', '')".to_string(), "".to_string())
    );
    let f = con(&[("Folio", "A12")]);
    assert_eq!(
        mandar_datos_web_view_cabe(&f, "Folio", "folio", "Folio"),
        ("rellenarCabe('folio', 'Folio', 'A12')".to_string(), "A12".to_string())
    );
}

#[test]
fn catalogos_completos() {
    assert_eq!(buscar_tipo_comprobante("P"), Some("Pago"));
    assert_eq!(buscar_forma_pago_desc("31"), Some("Intermediario pagos"));
    assert_eq!(buscar_forma_pago_desc("1"), None);
    assert_eq!(buscar_regimen_fiscal_desc("607"), Some("Régimen de Enajenación o Adquisición de Bienes"));
    assert_eq!(buscar_uso_cfdi_desc("D10"), Some("Pagos por servicios educativos (colegiaturas)"));
}

#[test]
fn formato_de_dinero() {
    assert_eq!(dinero("001000000334533461000813.5792"), "$ 1,000'000,334'533,461'000,813.57");
    assert_eq!(dinero("0100.00000"), "$ 100.00");
    assert_eq!(dinero("F1c0.0A000"), "$ 0.00");
    assert_eq!(dinero("1234.5"), "$ 1,234.50");
}
