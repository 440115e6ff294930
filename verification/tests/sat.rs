use cheetah::sat::{consulta_sat, respuesta_cfdi_sat, validar_cfdi_sat, RespuestaSat};

#[test]
fn cuerpo_de_la_consulta() {
    let cuerpo = consulta_sat("AAA010101AAA", "BBB010101BBB", "104.40", "AAAA-BBBB");
    assert_eq!(
        cuerpo,
        "<soapenv:Envelope xmlns:soapenv=\"http://schemas.xmlsoap.org/soap/envelope/\" xmlns:tem=\"http://tempuri.org/\"><soapenv:Header/><soapenv:Body><tem:Consulta><!--Optional:--><tem:expresionImpresa><![CDATA[?re=AAA010101AAA&rr=BBB010101BBB&tt=104.40&id=AAAA-BBBB]]></tem:expresionImpresa></tem:Consulta></soapenv:Body></soapenv:Envelope>"
    );
}

#[test]
fn lee_el_estado() {
    let r = RespuestaSat::Texto("<s><a:CodigoEstatus>S</a:CodigoEstatus><a:Estado>Vigente</a:Estado></s>".to_string());
    assert_eq!(respuesta_cfdi_sat(&r), ("esValido('Vigente')".to_string(), true));
    let cancelado = RespuestaSat::Texto("x<a:Estado>Cancelado</a:Estado>".to_string());
    assert_eq!(respuesta_cfdi_sat(&cancelado), ("esValido('Cancelado')".to_string(), true));
    let sin_cierre = RespuestaSat::Texto("x<a:Estado>No Encontrado".to_string());
    assert_eq!(respuesta_cfdi_sat(&sin_cierre), ("esValido('No Encontrado')".to_string(), true));
}

#[test]
fn respuestas_sin_estado() {
    let dos = RespuestaSat::Texto("<a:Estado>1</a:Estado><a:Estado>2</a:Estado>".to_string());
    assert_eq!(respuesta_cfdi_sat(&dos), ("esValido('pendienteOk')".to_string(), false));
    let ninguno = RespuestaSat::Texto("<html/>".to_string());
    assert_eq!(respuesta_cfdi_sat(&ninguno), ("esValido('pendienteOk')".to_string(), false));
    assert_eq!(respuesta_cfdi_sat(&RespuestaSat::SinTexto), ("esValido('pendienteOk')".to_string(), false));
    assert_eq!(respuesta_cfdi_sat(&RespuestaSat::No2xx), ("esValido('pendienteNo2xx')".to_string(), false));
}

#[test]
fn la_peticion_depende_solo_de_los_cuatro_datos() {
    let a = validar_cfdi_sat("E&1", "R2", "1.00", "U<3>");
    let b = validar_cfdi_sat("E&1", "R2", "1.00", "U<3>");
    assert_eq!(a.url, "https://consultaqr.facturaelectronica.sat.gob.mx/ConsultaCFDIService.svc?wsdl");
    assert_eq!(a.url, b.url);
    assert_eq!(a.cabeceras, b.cabeceras);
    assert_eq!(a.cuerpo, b.cuerpo);
    assert_eq!(a.espera_conexion_ms, 5000);
    assert_eq!(a.cuerpo, consulta_sat("E&1", "R2", "1.00", "U<3>"));
    assert!(a.cuerpo.contains("<![CDATA[?re=E&1&rr=R2&tt=1.00&id=U<3>]]>"));
    assert_eq!(
        a.cabeceras,
        vec![
            ("Content-type".to_string(), "text/xml;charset=\"utf-8\"".to_string()),
            ("Content-type".to_string(), "text/xml;charset=\"utf-8\"".to_string()),
            ("Accept".to_string(), "value: V".to_string()),
            ("SOAPAction".to_string(), "http://tempuri.org/IConsultaCFDIService/Consulta".to_string()),
        ]
    );
}
