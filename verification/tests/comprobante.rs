use cheetah::comprobante::{datos_cfdi, se_puede_mostrar};
use cheetah::lectura::{extension_valida, leer_cfdi, quitar_bom, ErrorLectura};
use std::path::Path;
use cheetah::xml::{elementos_hijos, get_data, Elemento, Nodo};

const EJEMPLO: &str = r#"<?xml version="1.0" encoding="UTF-8"?>
<cfdi:Comprobante xmlns:cfdi="http://www.sat.gob.mx/cfd/3" Version="3.3" Serie="A" Folio="123" Fecha="2019-05-13T10:20:30" Sello="ABCDEFGHIJKLMNOP" FormaPago="03" NoCertificado="00001" SubTotal="100.00" Descuento="10.00" Moneda="MXN" Total="104.40" TipoDeComprobante="I" MetodoPago="PUE" LugarExpedicion="01000">
  <cfdi:Emisor Rfc="AAA010101AAA" Nombre="Empresa" RegimenFiscal="601"/>
  <cfdi:Receptor Rfc="BBB010101BBB" Nombre="Cliente" UsoCFDI="G03"/>
  <cfdi:Conceptos>
    <cfdi:Concepto ClaveProdServ="01010101" Cantidad="1" ClaveUnidad="H87" Unidad="Pieza" Descripcion="Producto" ValorUnitario="100.00" Importe="100.00" Descuento="10.00">
      <cfdi:Impuestos><cfdi:Traslados><cfdi:Traslado Base="90.00" Impuesto="002" TipoFactor="Tasa" TasaOCuota="0.160000" Importe="14.40"/></cfdi:Traslados></cfdi:Impuestos>
    </cfdi:Concepto>
  </cfdi:Conceptos>
  <cfdi:Impuestos TotalImpuestosTrasladados="14.40"><cfdi:Traslados><cfdi:Traslado Impuesto="002" TipoFactor="Tasa" TasaOCuota="0.160000" Importe="14.40"/></cfdi:Traslados></cfdi:Impuestos>
  <cfdi:Complemento><tfd:TimbreFiscalDigital xmlns:tfd="http://www.sat.gob.mx/TimbreFiscalDigital" Version="1.1" UUID="AAAA-BBBB" FechaTimbrado="2019-05-13T10:21:00" RfcProvCertif="SAT970701NN3" SelloCFD="XYZ" NoCertificadoSAT="00002" SelloSAT="SSS"/></cfdi:Complemento>
</cfdi:Comprobante>"#;

fn elemento(nombre: &str, atributos: &[(&str, &str)], hijos: Vec<Nodo>) -> Elemento {
    Elemento {
        nombre: nombre.to_string(),
        atributos: atributos.iter().map(|(k, v)| (k.to_string(), v.to_string())).collect(),
        hijos,
    }
}

#[test]
fn lee_un_cfdi_y_lo_muestra_completo() {
    let cfdi = leer_cfdi(EJEMPLO).expect("a CFDI 3.3");
    assert_eq!(cfdi.nombre, "Comprobante");
    assert!(se_puede_mostrar(&cfdi));
    let (comandos, (rfc_emi, rfc_rec, total, uuid)) = datos_cfdi(&cfdi, "90.00", "");
    let esperados = vec![
        "rellenarCabe('serie', 'Serie', 'A')",
        "rellenarCabe('folio', 'Folio', '123')",
        "rellenarCabe('fecha', 'Fecha', '2019-05-13 a las 10:20:30 hrs')",
        "rellenarCabe('tipoComp', 'Tipo Comprobante', 'I - Ingreso')",
        "rellenarCabe('lugarExp', 'C.P. Expedición', '01000')",
        "rellenar('versionCfdi', 'Versión CFDI', '3.3')",
        "rellenar('metodoPago', 'Metodo de Pago', 'PUE - Pago en una sola exhibición')",
        "rellenar('formaPago', 'Forma de Pago', '03 - Transferencia electrónica de fondos')",
        "rellenar('subtotal', 'Subtotal', '$ 100.00')",
        "rellenar('descuento', 'Descuento', '- $ 10.00')",
        "rellenar('subNeto', 'Subtotal Neto', '$ 90.00')",
        "rellenar('total', 'Total', '$ 104.40')",
        "rellenar('condicionesPago', 'Condiciones de Pago', '')",
        "rellenar('moneda', 'Moneda', 'MXN')",
        "rellenar('certEmi', 'Numero de Certificado Emisór', '00001')",
        "rellenar('rfcEmi', 'RFC Emisor', 'AAA010101AAA')",
        "rellenar('razonEmi', 'Razón Social', 'Empresa')",
        "rellenar('regimenEmi', 'Regimen Fiscal', '601 - General de Ley Personas Morales')",
        "rellenar('rfcRec', 'RFC Receptor', 'BBB010101BBB')",
        "rellenar('razonRec', 'Razón Social', 'Cliente')",
        "rellenar('usoCfdi', 'Uso CFDI', 'G03 - Gastos en general')",
        "showConcep(true)",
        "addConcep(`0`, `1`, `H87`, `Pieza`, `01010101`, ``, `$ 100.00`, `Producto`, `$ 100.00`, `- $ 10.00`)",
        "trasRetConcepCabe(`0`)",
        "addTrasRetConcep('0', `0`, `Traslados`, `$ 14.40`, `0.160000`, `Tasa`, `002-IVA`, `$ 90.00`)",
        "impuestosCabe()",
        "addTrasRetImp(`0`, `Traslado`, `002-IVA`, `Tasa`, `0.160000`, `$ 14.40`)",
        "rellenar('fechaTimbre', 'Fecha de Timbrado', '2019-05-13 a las 10:21:00 hrs')",
        "rellenar('certSat', 'Numero de Certificado SAT', '00002')",
        "rellenar_cortado('selloSat', 'Sello Digital del SAT', 'SSS')",
        "rellenarCabe('uuid', 'Folio Fiscal UUID', 'AAAA-BBBB')",
        "rellenar_cortado('cadenaTim', 'Cadena Original del Timbre', '||1.1|AAAA-BBBB|2019-05-13T10:21:00|SAT970701NN3|XYZ|00002||')",
        "rellenar_cortado('selloEmi', 'Sello Digital del CFDI', 'ABCDEFGHIJKLMNOP')",
        "ponerQr('https://verificacfdi.facturaelectronica.sat.gob.mx/default.aspx?id=AAAA-BBBB&re=AAA010101AAA&rr=BBB010101BBB&tt=104.40&fe=IJKLMNOP')",
    ];
    assert_eq!(comandos, esperados);
    assert_eq!(rfc_emi, "AAA010101AAA");
    assert_eq!(rfc_rec, "BBB010101BBB");
    assert_eq!(total, "104.40");
    assert_eq!(uuid, "AAAA-BBBB");
}

#[test]
fn muestra_tipo_de_cambio_y_total_en_pesos() {
    let cfdi = elemento(
        "Comprobante",
        &[("Version", "3.3"), ("Total", "10.00"), ("TipoCambio", "20.5"), ("Sello", "12345678")],
        vec![],
    );
    let (comandos, _) = datos_cfdi(&cfdi, "", "205");
    assert!(comandos.contains(&"rellenar('tipoCambio', 'Tipo de Cambio', '$ 20.50')".to_string()));
    assert!(comandos.contains(&"rellenar('totalPesos', 'Total en Pesos', '$ 205.00')".to_string()));
    assert_eq!(comandos.last().unwrap(), "ponerQr('https://verificacfdi.facturaelectronica.sat.gob.mx/default.aspx?id=&re=&rr=&tt=10.00&fe=12345678')");
}

#[test]
fn sin_tipo_de_cambio_uno_no_hay_total_en_pesos() {
    let cfdi = elemento("Comprobante", &[("TipoCambio", "1"), ("Sello", "12345678")], vec![]);
    let (comandos, _) = datos_cfdi(&cfdi, "", "99");
    assert!(!comandos.iter().any(|c| c.contains("totalPesos")));
    assert!(!comandos.iter().any(|c| c.contains("subNeto")));
    assert_eq!(comandos[2], "rellenarCabe('fecha', 'Fecha', '')");
}

#[test]
fn pagos_y_relacionados_se_numeran() {
    let pago = |fecha: &str, monto: &str| {
        Nodo::Elemento(elemento(
            "Pago",
            &[("FechaPago", fecha), ("FormaDePagoP", "01"), ("MonedaP", "MXN"), ("Monto", monto)],
            vec![],
        ))
    };
    let pagos = elemento("Pagos", &[], vec![pago("2020-01-02T03:04:05", "50"), Nodo::Texto("x".into()), pago("", "7.5")]);
    let complemento = elemento("Complemento", &[], vec![Nodo::Elemento(pagos)]);
    let rel = |u: &str| Nodo::Elemento(elemento("CfdiRelacionado", &[("UUID", u)], vec![]));
    let relacionados = elemento("CfdiRelacionados", &[("TipoRelacion", "04")], vec![rel("U1"), rel("U2")]);
    let cfdi = elemento(
        "Comprobante",
        &[("Sello", "abcdefghij")],
        vec![Nodo::Elemento(complemento), Nodo::Comentario("c".into()), Nodo::Elemento(relacionados)],
    );
    assert!(se_puede_mostrar(&cfdi));
    let (comandos, _) = datos_cfdi(&cfdi, "", "");
    let n = comandos.len();
    assert_eq!(
        comandos[n - 8..n - 2].to_vec(),
        vec![
            "pagosCont()",
            "pagoCabe('0','2020-01-02 a las 03:04:05 hrs','01 - Efectivo','MXN','$ 50.00','{}')",
            "pagoCabe('1','','01 - Efectivo','MXN','$ 7.50','{}')",
            "rellenarRelacionadosCabe('04 - Sustitución de los CFDI previos')",
            "addRelacionado(`0`, `U1`)",
            "addRelacionado(`1`, `U2`)",
        ]
    );
}

#[test]
fn lineas_de_impuestos_numeradas_entre_grupos() {
    let linea = |imp: &str| Nodo::Elemento(elemento("Traslado", &[("Impuesto", imp), ("Importe", "1")], vec![]));
    let ret = |imp: &str| Nodo::Elemento(elemento("Retencion", &[("Impuesto", imp), ("Importe", "2")], vec![]));
    let traslados = elemento("Traslados", &[], vec![linea("002"), linea("003")]);
    let retenciones = elemento("Retenciones", &[], vec![ret("001")]);
    let impuestos = elemento("Impuestos", &[], vec![Nodo::Elemento(traslados), Nodo::Elemento(retenciones)]);
    let cfdi = elemento("Comprobante", &[("Sello", "abcdefgh")], vec![Nodo::Elemento(impuestos)]);
    let (comandos, _) = datos_cfdi(&cfdi, "", "");
    let n = comandos.len();
    assert_eq!(
        comandos[n - 6..n - 2].to_vec(),
        vec![
            "impuestosCabe()",
            "addTrasRetImp(`0`, `Traslado`, `002-IVA`, ``, ``, `$ 1.00`)",
            "addTrasRetImp(`1`, `Traslado`, `003-IEPS`, ``, ``, `$ 1.00`)",
            "addTrasRetImp(`2`, `Retencion`, `001-ISR`, ``, ``, `$ 2.00`)",
        ]
    );
}

#[test]
fn el_ultimo_emisor_y_el_ultimo_timbre_cuentan() {
    let emisor = |rfc: &str| Nodo::Elemento(elemento("Emisor", &[("Rfc", rfc)], vec![]));
    let timbre = |u: &str| {
        Nodo::Elemento(elemento(
            "Complemento",
            &[],
            vec![Nodo::Elemento(elemento("TimbreFiscalDigital", &[("UUID", u)], vec![]))],
        ))
    };
    let cfdi = elemento(
        "Comprobante",
        &[("Sello", "12345678")],
        vec![emisor("E1"), timbre("T1"), emisor("E2"), timbre("T2"), Nodo::Elemento(elemento("Complemento", &[], vec![]))],
    );
    let (_, (rfc_emi, rfc_rec, _, uuid)) = datos_cfdi(&cfdi, "", "");
    assert_eq!(rfc_emi, "E2");
    assert_eq!(rfc_rec, "");
    assert_eq!(uuid, "T2");
}

#[test]
fn no_se_puede_mostrar_con_fechas_o_sello_malos() {
    let sin_t = elemento("Comprobante", &[("Fecha", "2019-05-13"), ("Sello", "12345678")], vec![]);
    assert!(!se_puede_mostrar(&sin_t));
    let sello_corto = elemento("Comprobante", &[("Sello", "1234567")], vec![]);
    assert!(!se_puede_mostrar(&sello_corto));
    let sello_partido = elemento("Comprobante", &[("Sello", "ñ1234567")], vec![]);
    assert!(!se_puede_mostrar(&sello_partido));
    let sello_justo = elemento("Comprobante", &[("Sello", "ñ12345678")], vec![]);
    assert!(se_puede_mostrar(&sello_justo));
    let timbre = elemento("TimbreFiscalDigital", &[("FechaTimbrado", "ayer")], vec![]);
    let complemento = elemento("Complemento", &[], vec![Nodo::Elemento(timbre)]);
    let con_timbre_malo = elemento("Comprobante", &[("Sello", "12345678")], vec![Nodo::Elemento(complemento)]);
    assert!(!se_puede_mostrar(&con_timbre_malo));
}

#[test]
fn errores_de_lectura() {
    assert_eq!(leer_cfdi("<a>").err(), Some(ErrorLectura::XmlNoValido));
    assert_eq!(leer_cfdi("").err(), Some(ErrorLectura::XmlNoValido));
    assert_eq!(leer_cfdi("<Comprobante Version=\"4.0\"/>").err(), Some(ErrorLectura::NoEsCfdi33));
    assert_eq!(leer_cfdi("<Factura Version=\"3.3\"/>").err(), Some(ErrorLectura::NoEsCfdi33));
    assert!(leer_cfdi("<x:Comprobante xmlns:x=\"u\" Version=\"3.3\"/>").is_ok());
    assert_eq!(ErrorLectura::NoEsCfdi33.mensaje(), "Este xml no es un comprobante CFDI v.3.3 valido");
    assert_eq!(ErrorLectura::XmlNoValido.mensaje(), "Comprobante no valido");
    assert_eq!(ErrorLectura::ExtensionNoValida.mensaje(), "Extensión del archivo no valida");
    assert_eq!(ErrorLectura::ArchivoIlegible.mensaje(), "Error al leer el archivo");
}

#[test]
fn la_marca_de_orden_de_bytes_se_ignora() {
    assert_eq!(quitar_bom("\u{feff}<a/>"), "<a/>");
    assert_eq!(quitar_bom("<a/>"), "<a/>");
    assert_eq!(quitar_bom("x\u{feff}<a/>\u{feff}y"), "<a/>");
    assert_eq!(quitar_bom(&quitar_bom("\u{feff}\u{feff}z")), quitar_bom("\u{feff}\u{feff}z"));
    let con = leer_cfdi("\u{feff}<Comprobante Version=\"3.3\"/>").unwrap();
    assert_eq!(get_data(&con, "Version"), "3.3");
}

#[test]
fn atributos_e_hijos() {
    let cfdi = leer_cfdi("<Comprobante Version=\"3.3\" A=\"1\"><!--c-->texto<B/><C x=\"y\"/></Comprobante>").unwrap();
    assert_eq!(get_data(&cfdi, "A"), "1");
    assert_eq!(get_data(&cfdi, "Z"), "");
    let hijos = elementos_hijos(&cfdi);
    let nombres: Vec<&str> = hijos.iter().map(|h| h.nombre.as_str()).collect();
    assert_eq!(nombres, vec!["B", "C"]);
    assert_eq!(get_data(hijos[1], "x"), "y");
    let repetido = elemento("E", &[("k", "primero"), ("k", "segundo")], vec![]);
    assert_eq!(get_data(&repetido, "k"), "primero");
}

#[test]
fn extension_como_la_lee_path() {
    let casos = [
        "a.xml", "dir/a.xml", "/a/b/c.xml", "a.xml/", "a.xml/.", "a.xml//", ".xml", "..xml", "a.XML",
        "a.xml.bak", "a", "", "/", ".", "..", "a/..", "a.xml/..", "./a.xml", "x.y.xml", "a.xm", "dir.xml/a",
        "año.xml",
    ];
    for ruta in casos.iter() {
        let esperado = Path::new(ruta).extension().map(|e| e == "xml").unwrap_or(false);
        assert_eq!(extension_valida(ruta, false), esperado, "{}", ruta);
    }
}

#[test]
fn extension_con_rutas_de_windows() {
    assert!(extension_valida("C:\\dir\\a.xml", true));
    assert!(extension_valida("C:a.xml", true));
    assert!(extension_valida("d:/dir\\a.xml\\", true));
    assert!(!extension_valida("C:\\dir\\.xml", true));
    assert!(extension_valida("C:\\dir\\.xml", false));
    assert!(!extension_valida("C:.xml", true));
    assert!(!extension_valida("a.xml\\..", true));
    assert!(extension_valida("a.xml\\.", true));
    assert!(!extension_valida("C:", true));
    assert!(extension_valida("1:a.xml", true));
    assert!(extension_valida("1:.xml", true));
}
