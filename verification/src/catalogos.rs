use vstd::prelude::*;

use crate::texto::iguales;

verus! {

/// The type of a document (`TipoDeComprobante`) by its code.
pub open spec fn tipo_comprobante(clave: Seq<char>) -> Option<Seq<char>> {
    if clave == "I"@ {
        Some("Ingreso"@)
    } else if clave == "E"@ {
        Some("Egreso"@)
    } else if clave == "T"@ {
        Some("Traslado"@)
    } else if clave == "N"@ {
        Some("Nómina"@)
    } else if clave == "P"@ {
        Some("Pago"@)
    } else {
        None
    }
}

/// Looks up `clave` in the catalogue of [`tipo_comprobante`].
pub fn buscar_tipo_comprobante(clave: &str) -> (r: Option<&'static str>)
    ensures
        r matches Some(d) ==> tipo_comprobante(clave@) == Some(d@),
        r is None ==> tipo_comprobante(clave@) is None,
{
    if iguales(clave, "I") {
        Some("Ingreso")
    } else if iguales(clave, "E") {
        Some("Egreso")
    } else if iguales(clave, "T") {
        Some("Traslado")
    } else if iguales(clave, "N") {
        Some("Nómina")
    } else if iguales(clave, "P") {
        Some("Pago")
    } else {
        None
    }
}

/// How documents are related (`TipoRelacion`), by code.
pub open spec fn tipo_relacion_desc(clave: Seq<char>) -> Option<Seq<char>> {
    if clave == "01"@ {
        Some("Nota de crédito de los documentos relacionados"@)
    } else if clave == "02"@ {
        Some("Nota de débito de los documentos relacionados"@)
    } else if clave == "03"@ {
        Some("Devolución de mercancía sobre facturas o traslados previos"@)
    } else if clave == "04"@ {
        Some("Sustitución de los CFDI previos"@)
    } else if clave == "05"@ {
        Some("Traslados de mercancias facturados previamente"@)
    } else if clave == "06"@ {
        Some("Factura generada por los traslados previos"@)
    } else if clave == "07"@ {
        Some("CFDI por aplicación de anticipo"@)
    } else if clave == "08"@ {
        Some("Factura generada por pagos en parcialidades"@)
    } else if clave == "09"@ {
        Some("Factura generada por pagos diferidos"@)
    } else {
        None
    }
}

/// Looks up `clave` in the catalogue of [`tipo_relacion_desc`].
pub fn buscar_tipo_relacion_desc(clave: &str) -> (r: Option<&'static str>)
    ensures
        r matches Some(d) ==> tipo_relacion_desc(clave@) == Some(d@),
        r is None ==> tipo_relacion_desc(clave@) is None,
{
    if iguales(clave, "01") {
        Some("Nota de crédito de los documentos relacionados")
    } else if iguales(clave, "02") {
        Some("Nota de débito de los documentos relacionados")
    } else if iguales(clave, "03") {
        Some("Devolución de mercancía sobre facturas o traslados previos")
    } else if iguales(clave, "04") {
        Some("Sustitución de los CFDI previos")
    } else if iguales(clave, "05") {
        Some("Traslados de mercancias facturados previamente")
    } else if iguales(clave, "06") {
        Some("Factura generada por los traslados previos")
    } else if iguales(clave, "07") {
        Some("CFDI por aplicación de anticipo")
    } else if iguales(clave, "08") {
        Some("Factura generada por pagos en parcialidades")
    } else if iguales(clave, "09") {
        Some("Factura generada por pagos diferidos")
    } else {
        None
    }
}

/// The issuer's tax regime (`RegimenFiscal`), by code.
pub open spec fn regimen_fiscal_desc(clave: Seq<char>) -> Option<Seq<char>> {
    if clave == "601"@ {
        Some("General de Ley Personas Morales"@)
    } else if clave == "603"@ {
        Some("Personas Morales con Fines no Lucrativos"@)
    } else if clave == "605"@ {
        Some("Sueldos y Salarios e Ingresos Asimilados a Salarios"@)
    } else if clave == "606"@ {
        Some("Arrendamiento"@)
    } else if clave == "608"@ {
        Some("Demás ingresos"@)
    } else if clave == "609"@ {
        Some("Consolidación"@)
    } else if clave == "610"@ {
        Some("Residentes en el Extranjero sin Establecimiento Permanente en México"@)
    } else if clave == "611"@ {
        Some("Ingresos por Dividendos (socios y accionistas)"@)
    } else if clave == "612"@ {
        Some("Personas Físicas con Actividades Empresariales y Profesionales"@)
    } else if clave == "614"@ {
        Some("Ingresos por intereses"@)
    } else if clave == "615"@ {
        Some("Régimen de los ingresos por obtención de premios"@)
    } else if clave == "616"@ {
        Some("Sin obligaciones fiscales"@)
    } else if clave == "620"@ {
        Some("Sociedades Cooperativas de Producción que optan por diferir sus ingresos"@)
    } else if clave == "621"@ {
        Some("Incorporación Fiscal"@)
    } else if clave == "622"@ {
        Some("Actividades Agrícolas, Ganaderas, Silvícolas y Pesqueras"@)
    } else if clave == "623"@ {
        Some("Opcional para Grupos de Sociedades"@)
    } else if clave == "624"@ {
        Some("Coordinados"@)
    } else if clave == "628"@ {
        Some("Hidrocarburos"@)
    } else if clave == "607"@ {
        Some("Régimen de Enajenación o Adquisición de Bienes"@)
    } else if clave == "629"@ {
        Some("De los Regímenes Fiscales Preferentes y de las Empresas Multinacionales"@)
    } else if clave == "630"@ {
        Some("Enajenación de acciones en bolsa de valores"@)
    } else {
        None
    }
}

/// Looks up `clave` in the catalogue of [`regimen_fiscal_desc`].
pub fn buscar_regimen_fiscal_desc(clave: &str) -> (r: Option<&'static str>)
    ensures
        r matches Some(d) ==> regimen_fiscal_desc(clave@) == Some(d@),
        r is None ==> regimen_fiscal_desc(clave@) is None,
{
    if iguales(clave, "601") {
        Some("General de Ley Personas Morales")
    } else if iguales(clave, "603") {
        Some("Personas Morales con Fines no Lucrativos")
    } else if iguales(clave, "605") {
        Some("Sueldos y Salarios e Ingresos Asimilados a Salarios")
    } else if iguales(clave, "606") {
        Some("Arrendamiento")
    } else if iguales(clave, "608") {
        Some("Demás ingresos")
    } else if iguales(clave, "609") {
        Some("Consolidación")
    } else if iguales(clave, "610") {
        Some("Residentes en el Extranjero sin Establecimiento Permanente en México")
    } else if iguales(clave, "611") {
        Some("Ingresos por Dividendos (socios y accionistas)")
    } else if iguales(clave, "612") {
        Some("Personas Físicas con Actividades Empresariales y Profesionales")
    } else if iguales(clave, "614") {
        Some("Ingresos por intereses")
    } else if iguales(clave, "615") {
        Some("Régimen de los ingresos por obtención de premios")
    } else if iguales(clave, "616") {
        Some("Sin obligaciones fiscales")
    } else if iguales(clave, "620") {
        Some("Sociedades Cooperativas de Producción que optan por diferir sus ingresos")
    } else if iguales(clave, "621") {
        Some("Incorporación Fiscal")
    } else if iguales(clave, "622") {
        Some("Actividades Agrícolas, Ganaderas, Silvícolas y Pesqueras")
    } else if iguales(clave, "623") {
        Some("Opcional para Grupos de Sociedades")
    } else if iguales(clave, "624") {
        Some("Coordinados")
    } else if iguales(clave, "628") {
        Some("Hidrocarburos")
    } else if iguales(clave, "607") {
        Some("Régimen de Enajenación o Adquisición de Bienes")
    } else if iguales(clave, "629") {
        Some("De los Regímenes Fiscales Preferentes y de las Empresas Multinacionales")
    } else if iguales(clave, "630") {
        Some("Enajenación de acciones en bolsa de valores")
    } else {
        None
    }
}

/// The form of payment (`FormaPago`, `FormaDePagoP`), by code.
pub open spec fn forma_pago_desc(clave: Seq<char>) -> Option<Seq<char>> {
    if clave == "01"@ {
        Some("Efectivo"@)
    } else if clave == "02"@ {
        Some("Cheque nominativo"@)
    } else if clave == "03"@ {
        Some("Transferencia electrónica de fondos"@)
    } else if clave == "04"@ {
        Some("Tarjeta de crédito"@)
    } else if clave == "05"@ {
        Some("Monedero electrónico"@)
    } else if clave == "06"@ {
        Some("Dinero electrónico"@)
    } else if clave == "08"@ {
        Some("Vales de despensa"@)
    } else if clave == "12"@ {
        Some("Dación en pago"@)
    } else if clave == "13"@ {
        Some("Pago por subrogación"@)
    } else if clave == "14"@ {
        Some("Pago por consignación"@)
    } else if clave == "15"@ {
        Some("Condonación"@)
    } else if clave == "17"@ {
        Some("Compensación"@)
    } else if clave == "23"@ {
        Some("Novación"@)
    } else if clave == "24"@ {
        Some("Confusión"@)
    } else if clave == "25"@ {
        Some("Remisión de deuda"@)
    } else if clave == "26"@ {
        Some("Prescripción o caducidad"@)
    } else if clave == "27"@ {
        Some("A satisfacción del acreedor"@)
    } else if clave == "28"@ {
        Some("Tarjeta de débito"@)
    } else if clave == "29"@ {
        Some("Tarjeta de servicios"@)
    } else if clave == "30"@ {
        Some("Aplicación de anticipos"@)
    } else if clave == "31"@ {
        Some("Intermediario pagos"@)
    } else if clave == "99"@ {
        Some("Por definir"@)
    } else {
        None
    }
}

/// Looks up `clave` in the catalogue of [`forma_pago_desc`].
pub fn buscar_forma_pago_desc(clave: &str) -> (r: Option<&'static str>)
    ensures
        r matches Some(d) ==> forma_pago_desc(clave@) == Some(d@),
        r is None ==> forma_pago_desc(clave@) is None,
{
    if iguales(clave, "01") {
        Some("Efectivo")
    } else if iguales(clave, "02") {
        Some("Cheque nominativo")
    } else if iguales(clave, "03") {
        Some("Transferencia electrónica de fondos")
    } else if iguales(clave, "04") {
        Some("Tarjeta de crédito")
    } else if iguales(clave, "05") {
        Some("Monedero electrónico")
    } else if iguales(clave, "06") {
        Some("Dinero electrónico")
    } else if iguales(clave, "08") {
        Some("Vales de despensa")
    } else if iguales(clave, "12") {
        Some("Dación en pago")
    } else if iguales(clave, "13") {
        Some("Pago por subrogación")
    } else if iguales(clave, "14") {
        Some("Pago por consignación")
    } else if iguales(clave, "15") {
        Some("Condonación")
    } else if iguales(clave, "17") {
        Some("Compensación")
    } else if iguales(clave, "23") {
        Some("Novación")
    } else if iguales(clave, "24") {
        Some("Confusión")
    } else if iguales(clave, "25") {
        Some("Remisión de deuda")
    } else if iguales(clave, "26") {
        Some("Prescripción o caducidad")
    } else if iguales(clave, "27") {
        Some("A satisfacción del acreedor")
    } else if iguales(clave, "28") {
        Some("Tarjeta de débito")
    } else if iguales(clave, "29") {
        Some("Tarjeta de servicios")
    } else if iguales(clave, "30") {
        Some("Aplicación de anticipos")
    } else if iguales(clave, "31") {
        Some("Intermediario pagos")
    } else if iguales(clave, "99") {
        Some("Por definir")
    } else {
        None
    }
}

/// What the receiver uses the document for (`UsoCFDI`), by code.
pub open spec fn uso_cfdi_desc(clave: Seq<char>) -> Option<Seq<char>> {
    if clave == "G01"@ {
        Some("Adquisición de mercancias"@)
    } else if clave == "G02"@ {
        Some("Devoluciones, descuentos o bonificaciones"@)
    } else if clave == "G03"@ {
        Some("Gastos en general"@)
    } else if clave == "I01"@ {
        Some("Construcciones"@)
    } else if clave == "I02"@ {
        Some("Mobilario y equipo de oficina por inversiones"@)
    } else if clave == "I03"@ {
        Some("Equipo de transporte"@)
    } else if clave == "I04"@ {
        Some("Equipo de computo y accesorios"@)
    } else if clave == "I05"@ {
        Some("Dados, troqueles, moldes, matrices y herramental"@)
    } else if clave == "I06"@ {
        Some("Comunicaciones telefónicas"@)
    } else if clave == "I07"@ {
        Some("Comunicaciones satelitales"@)
    } else if clave == "I08"@ {
        Some("Otra maquinaria y equipo"@)
    } else if clave == "D01"@ {
        Some("Honorarios médicos, dentales y gastos hospitalarios."@)
    } else if clave == "D02"@ {
        Some("Gastos médicos por incapacidad o discapacidad"@)
    } else if clave == "D03"@ {
        Some("Gastos funerales."@)
    } else if clave == "D04"@ {
        Some("Donativos."@)
    } else if clave == "D05"@ {
        Some("Intereses reales efectivamente pagados por créditos hipotecarios (casa habitación)."@)
    } else if clave == "D06"@ {
        Some("Aportaciones voluntarias al SAR."@)
    } else if clave == "D07"@ {
        Some("Primas por seguros de gastos médicos."@)
    } else if clave == "D08"@ {
        Some("Gastos de transportación escolar obligatoria."@)
    } else if clave == "D09"@ {
        Some("Depósitos en cuentas para el ahorro, primas que tengan como base planes de pensiones."@)
    } else if clave == "D10"@ {
        Some("Pagos por servicios educativos (colegiaturas)"@)
    } else if clave == "P01"@ {
        Some("Por definir"@)
    } else {
        None
    }
}

/// Looks up `clave` in the catalogue of [`uso_cfdi_desc`].
pub fn buscar_uso_cfdi_desc(clave: &str) -> (r: Option<&'static str>)
    ensures
        r matches Some(d) ==> uso_cfdi_desc(clave@) == Some(d@),
        r is None ==> uso_cfdi_desc(clave@) is None,
{
    if iguales(clave, "G01") {
        Some("Adquisición de mercancias")
    } else if iguales(clave, "G02") {
        Some("Devoluciones, descuentos o bonificaciones")
    } else if iguales(clave, "G03") {
        Some("Gastos en general")
    } else if iguales(clave, "I01") {
        Some("Construcciones")
    } else if iguales(clave, "I02") {
        Some("Mobilario y equipo de oficina por inversiones")
    } else if iguales(clave, "I03") {
        Some("Equipo de transporte")
    } else if iguales(clave, "I04") {
        Some("Equipo de computo y accesorios")
    } else if iguales(clave, "I05") {
        Some("Dados, troqueles, moldes, matrices y herramental")
    } else if iguales(clave, "I06") {
        Some("Comunicaciones telefónicas")
    } else if iguales(clave, "I07") {
        Some("Comunicaciones satelitales")
    } else if iguales(clave, "I08") {
        Some("Otra maquinaria y equipo")
    } else if iguales(clave, "D01") {
        Some("Honorarios médicos, dentales y gastos hospitalarios.")
    } else if iguales(clave, "D02") {
        Some("Gastos médicos por incapacidad o discapacidad")
    } else if iguales(clave, "D03") {
        Some("Gastos funerales.")
    } else if iguales(clave, "D04") {
        Some("Donativos.")
    } else if iguales(clave, "D05") {
        Some("Intereses reales efectivamente pagados por créditos hipotecarios (casa habitación).")
    } else if iguales(clave, "D06") {
        Some("Aportaciones voluntarias al SAR.")
    } else if iguales(clave, "D07") {
        Some("Primas por seguros de gastos médicos.")
    } else if iguales(clave, "D08") {
        Some("Gastos de transportación escolar obligatoria.")
    } else if iguales(clave, "D09") {
        Some("Depósitos en cuentas para el ahorro, primas que tengan como base planes de pensiones.")
    } else if iguales(clave, "D10") {
        Some("Pagos por servicios educativos (colegiaturas)")
    } else if iguales(clave, "P01") {
        Some("Por definir")
    } else {
        None
    }
}

/// The types of document are those of the SAT catalogue c_TipoDeComprobante: each code has its own name, and no two codes share one.
pub proof fn ley_catalogo_tipo_comprobante()
    ensures
        tipo_comprobante("I"@) == Some("Ingreso"@),
        tipo_comprobante("E"@) == Some("Egreso"@),
        tipo_comprobante("T"@) == Some("Traslado"@),
        tipo_comprobante("N"@) == Some("Nómina"@),
        tipo_comprobante("P"@) == Some("Pago"@),
        forall|a: Seq<char>, b: Seq<char>|
            #[trigger] tipo_comprobante(a) is Some && #[trigger] tipo_comprobante(b) == tipo_comprobante(a) ==> a == b,
{
    reveal_strlit("E");
    reveal_strlit("Egreso");
    reveal_strlit("I");
    reveal_strlit("Ingreso");
    reveal_strlit("N");
    reveal_strlit("Nómina");
    reveal_strlit("P");
    reveal_strlit("Pago");
    reveal_strlit("T");
    reveal_strlit("Traslado");
    assert("E"@[0] == 'E');
    assert("Egreso"@[0] == 'E');
    assert("I"@[0] == 'I');
    assert("N"@[0] == 'N');
    assert("Nómina"@[0] == 'N');
    assert("P"@[0] == 'P');
    assert("T"@[0] == 'T');
    assert("Egreso"@.len() == 6);
    assert("Ingreso"@.len() == 7);
    assert("Nómina"@.len() == 6);
    assert("Pago"@.len() == 4);
    assert("Traslado"@.len() == 8);
}

/// The relations between documents are those of the SAT catalogue c_TipoRelacion: each code has its own description, and no two codes share one.
pub proof fn ley_catalogo_tipo_relacion_desc()
    ensures
        tipo_relacion_desc("01"@) == Some("Nota de crédito de los documentos relacionados"@),
        tipo_relacion_desc("02"@) == Some("Nota de débito de los documentos relacionados"@),
        tipo_relacion_desc("03"@) == Some("Devolución de mercancía sobre facturas o traslados previos"@),
        tipo_relacion_desc("04"@) == Some("Sustitución de los CFDI previos"@),
        tipo_relacion_desc("05"@) == Some("Traslados de mercancias facturados previamente"@),
        tipo_relacion_desc("06"@) == Some("Factura generada por los traslados previos"@),
        tipo_relacion_desc("07"@) == Some("CFDI por aplicación de anticipo"@),
        tipo_relacion_desc("08"@) == Some("Factura generada por pagos en parcialidades"@),
        tipo_relacion_desc("09"@) == Some("Factura generada por pagos diferidos"@),
        forall|a: Seq<char>, b: Seq<char>|
            #[trigger] tipo_relacion_desc(a) is Some && #[trigger] tipo_relacion_desc(b) == tipo_relacion_desc(a) ==> a == b,
{
    reveal_strlit("01");
    reveal_strlit("02");
    reveal_strlit("03");
    reveal_strlit("04");
    reveal_strlit("05");
    reveal_strlit("06");
    reveal_strlit("07");
    reveal_strlit("08");
    reveal_strlit("09");
    reveal_strlit("CFDI por aplicación de anticipo");
    reveal_strlit("Devolución de mercancía sobre facturas o traslados previos");
    reveal_strlit("Factura generada por los traslados previos");
    reveal_strlit("Factura generada por pagos diferidos");
    reveal_strlit("Factura generada por pagos en parcialidades");
    reveal_strlit("Nota de crédito de los documentos relacionados");
    reveal_strlit("Nota de débito de los documentos relacionados");
    reveal_strlit("Sustitución de los CFDI previos");
    reveal_strlit("Traslados de mercancias facturados previamente");
    assert("01"@[1] == '1');
    assert("02"@[1] == '2');
    assert("03"@[1] == '3');
    assert("04"@[1] == '4');
    assert("05"@[1] == '5');
    assert("06"@[1] == '6');
    assert("07"@[1] == '7');
    assert("08"@[1] == '8');
    assert("09"@[1] == '9');
    assert("CFDI por aplicación de anticipo"@[0] == 'C');
    assert("Nota de crédito de los documentos relacionados"@[0] == 'N');
    assert("Sustitución de los CFDI previos"@[0] == 'S');
    assert("Traslados de mercancias facturados previamente"@[0] == 'T');
    assert("CFDI por aplicación de anticipo"@.len() == 31);
    assert("Devolución de mercancía sobre facturas o traslados previos"@.len() == 58);
    assert("Factura generada por los traslados previos"@.len() == 42);
    assert("Factura generada por pagos diferidos"@.len() == 36);
    assert("Factura generada por pagos en parcialidades"@.len() == 43);
    assert("Nota de crédito de los documentos relacionados"@.len() == 46);
    assert("Nota de débito de los documentos relacionados"@.len() == 45);
    assert("Sustitución de los CFDI previos"@.len() == 31);
    assert("Traslados de mercancias facturados previamente"@.len() == 46);
}

/// The tax regimes are those of the SAT catalogue c_RegimenFiscal: each code has its own description, and no two codes share one.
pub proof fn ley_catalogo_regimen_fiscal_desc()
    ensures
        regimen_fiscal_desc("601"@) == Some("General de Ley Personas Morales"@),
        regimen_fiscal_desc("603"@) == Some("Personas Morales con Fines no Lucrativos"@),
        regimen_fiscal_desc("605"@) == Some("Sueldos y Salarios e Ingresos Asimilados a Salarios"@),
        regimen_fiscal_desc("606"@) == Some("Arrendamiento"@),
        regimen_fiscal_desc("608"@) == Some("Demás ingresos"@),
        regimen_fiscal_desc("609"@) == Some("Consolidación"@),
        regimen_fiscal_desc("610"@) == Some("Residentes en el Extranjero sin Establecimiento Permanente en México"@),
        regimen_fiscal_desc("611"@) == Some("Ingresos por Dividendos (socios y accionistas)"@),
        regimen_fiscal_desc("612"@) == Some("Personas Físicas con Actividades Empresariales y Profesionales"@),
        regimen_fiscal_desc("614"@) == Some("Ingresos por intereses"@),
        regimen_fiscal_desc("615"@) == Some("Régimen de los ingresos por obtención de premios"@),
        regimen_fiscal_desc("616"@) == Some("Sin obligaciones fiscales"@),
        regimen_fiscal_desc("620"@) == Some("Sociedades Cooperativas de Producción que optan por diferir sus ingresos"@),
        regimen_fiscal_desc("621"@) == Some("Incorporación Fiscal"@),
        regimen_fiscal_desc("622"@) == Some("Actividades Agrícolas, Ganaderas, Silvícolas y Pesqueras"@),
        regimen_fiscal_desc("623"@) == Some("Opcional para Grupos de Sociedades"@),
        regimen_fiscal_desc("624"@) == Some("Coordinados"@),
        regimen_fiscal_desc("628"@) == Some("Hidrocarburos"@),
        regimen_fiscal_desc("607"@) == Some("Régimen de Enajenación o Adquisición de Bienes"@),
        regimen_fiscal_desc("629"@) == Some("De los Regímenes Fiscales Preferentes y de las Empresas Multinacionales"@),
        regimen_fiscal_desc("630"@) == Some("Enajenación de acciones en bolsa de valores"@),
        forall|a: Seq<char>, b: Seq<char>|
            #[trigger] regimen_fiscal_desc(a) is Some && #[trigger] regimen_fiscal_desc(b) == regimen_fiscal_desc(a) ==> a == b,
{
    reveal_strlit("601");
    reveal_strlit("603");
    reveal_strlit("605");
    reveal_strlit("606");
    reveal_strlit("607");
    reveal_strlit("608");
    reveal_strlit("609");
    reveal_strlit("610");
    reveal_strlit("611");
    reveal_strlit("612");
    reveal_strlit("614");
    reveal_strlit("615");
    reveal_strlit("616");
    reveal_strlit("620");
    reveal_strlit("621");
    reveal_strlit("622");
    reveal_strlit("623");
    reveal_strlit("624");
    reveal_strlit("628");
    reveal_strlit("629");
    reveal_strlit("630");
    reveal_strlit("Actividades Agrícolas, Ganaderas, Silvícolas y Pesqueras");
    reveal_strlit("Arrendamiento");
    reveal_strlit("Consolidación");
    reveal_strlit("Coordinados");
    reveal_strlit("De los Regímenes Fiscales Preferentes y de las Empresas Multinacionales");
    reveal_strlit("Demás ingresos");
    reveal_strlit("Enajenación de acciones en bolsa de valores");
    reveal_strlit("General de Ley Personas Morales");
    reveal_strlit("Hidrocarburos");
    reveal_strlit("Incorporación Fiscal");
    reveal_strlit("Ingresos por Dividendos (socios y accionistas)");
    reveal_strlit("Ingresos por intereses");
    reveal_strlit("Opcional para Grupos de Sociedades");
    reveal_strlit("Personas Físicas con Actividades Empresariales y Profesionales");
    reveal_strlit("Personas Morales con Fines no Lucrativos");
    reveal_strlit("Residentes en el Extranjero sin Establecimiento Permanente en México");
    reveal_strlit("Régimen de Enajenación o Adquisición de Bienes");
    reveal_strlit("Régimen de los ingresos por obtención de premios");
    reveal_strlit("Sin obligaciones fiscales");
    reveal_strlit("Sociedades Cooperativas de Producción que optan por diferir sus ingresos");
    reveal_strlit("Sueldos y Salarios e Ingresos Asimilados a Salarios");
    assert("601"@[1] == '0');
    assert("601"@[2] == '1');
    assert("603"@[1] == '0');
    assert("603"@[2] == '3');
    assert("605"@[1] == '0');
    assert("605"@[2] == '5');
    assert("606"@[1] == '0');
    assert("606"@[2] == '6');
    assert("607"@[1] == '0');
    assert("607"@[2] == '7');
    assert("608"@[1] == '0');
    assert("608"@[2] == '8');
    assert("609"@[1] == '0');
    assert("609"@[2] == '9');
    assert("610"@[1] == '1');
    assert("610"@[2] == '0');
    assert("611"@[1] == '1');
    assert("611"@[2] == '1');
    assert("612"@[1] == '1');
    assert("612"@[2] == '2');
    assert("614"@[1] == '1');
    assert("614"@[2] == '4');
    assert("615"@[1] == '1');
    assert("615"@[2] == '5');
    assert("616"@[1] == '1');
    assert("616"@[2] == '6');
    assert("620"@[1] == '2');
    assert("620"@[2] == '0');
    assert("621"@[1] == '2');
    assert("621"@[2] == '1');
    assert("622"@[1] == '2');
    assert("622"@[2] == '2');
    assert("623"@[1] == '2');
    assert("623"@[2] == '3');
    assert("624"@[1] == '2');
    assert("624"@[2] == '4');
    assert("628"@[1] == '2');
    assert("628"@[2] == '8');
    assert("629"@[1] == '2');
    assert("629"@[2] == '9');
    assert("630"@[1] == '3');
    assert("Arrendamiento"@[0] == 'A');
    assert("Consolidación"@[0] == 'C');
    assert("Hidrocarburos"@[0] == 'H');
    assert("Ingresos por Dividendos (socios y accionistas)"@[0] == 'I');
    assert("Régimen de Enajenación o Adquisición de Bienes"@[0] == 'R');
    assert("Actividades Agrícolas, Ganaderas, Silvícolas y Pesqueras"@.len() == 56);
    assert("Arrendamiento"@.len() == 13);
    assert("Consolidación"@.len() == 13);
    assert("Coordinados"@.len() == 11);
    assert("De los Regímenes Fiscales Preferentes y de las Empresas Multinacionales"@.len() == 71);
    assert("Demás ingresos"@.len() == 14);
    assert("Enajenación de acciones en bolsa de valores"@.len() == 43);
    assert("General de Ley Personas Morales"@.len() == 31);
    assert("Hidrocarburos"@.len() == 13);
    assert("Incorporación Fiscal"@.len() == 20);
    assert("Ingresos por Dividendos (socios y accionistas)"@.len() == 46);
    assert("Ingresos por intereses"@.len() == 22);
    assert("Opcional para Grupos de Sociedades"@.len() == 34);
    assert("Personas Físicas con Actividades Empresariales y Profesionales"@.len() == 62);
    assert("Personas Morales con Fines no Lucrativos"@.len() == 40);
    assert("Residentes en el Extranjero sin Establecimiento Permanente en México"@.len() == 68);
    assert("Régimen de Enajenación o Adquisición de Bienes"@.len() == 46);
    assert("Régimen de los ingresos por obtención de premios"@.len() == 48);
    assert("Sin obligaciones fiscales"@.len() == 25);
    assert("Sociedades Cooperativas de Producción que optan por diferir sus ingresos"@.len() == 72);
    assert("Sueldos y Salarios e Ingresos Asimilados a Salarios"@.len() == 51);
}

/// The forms of payment are those of the SAT catalogue c_FormaPago (04 is a credit card, 28 a debit card): each code has its own description, and no two codes share one.
pub proof fn ley_catalogo_forma_pago_desc()
    ensures
        forma_pago_desc("01"@) == Some("Efectivo"@),
        forma_pago_desc("02"@) == Some("Cheque nominativo"@),
        forma_pago_desc("03"@) == Some("Transferencia electrónica de fondos"@),
        forma_pago_desc("04"@) == Some("Tarjeta de crédito"@),
        forma_pago_desc("05"@) == Some("Monedero electrónico"@),
        forma_pago_desc("06"@) == Some("Dinero electrónico"@),
        forma_pago_desc("08"@) == Some("Vales de despensa"@),
        forma_pago_desc("12"@) == Some("Dación en pago"@),
        forma_pago_desc("13"@) == Some("Pago por subrogación"@),
        forma_pago_desc("14"@) == Some("Pago por consignación"@),
        forma_pago_desc("15"@) == Some("Condonación"@),
        forma_pago_desc("17"@) == Some("Compensación"@),
        forma_pago_desc("23"@) == Some("Novación"@),
        forma_pago_desc("24"@) == Some("Confusión"@),
        forma_pago_desc("25"@) == Some("Remisión de deuda"@),
        forma_pago_desc("26"@) == Some("Prescripción o caducidad"@),
        forma_pago_desc("27"@) == Some("A satisfacción del acreedor"@),
        forma_pago_desc("28"@) == Some("Tarjeta de débito"@),
        forma_pago_desc("29"@) == Some("Tarjeta de servicios"@),
        forma_pago_desc("30"@) == Some("Aplicación de anticipos"@),
        forma_pago_desc("31"@) == Some("Intermediario pagos"@),
        forma_pago_desc("99"@) == Some("Por definir"@),
        forall|a: Seq<char>, b: Seq<char>|
            #[trigger] forma_pago_desc(a) is Some && #[trigger] forma_pago_desc(b) == forma_pago_desc(a) ==> a == b,
{
    reveal_strlit("01");
    reveal_strlit("02");
    reveal_strlit("03");
    reveal_strlit("04");
    reveal_strlit("05");
    reveal_strlit("06");
    reveal_strlit("08");
    reveal_strlit("12");
    reveal_strlit("13");
    reveal_strlit("14");
    reveal_strlit("15");
    reveal_strlit("17");
    reveal_strlit("23");
    reveal_strlit("24");
    reveal_strlit("25");
    reveal_strlit("26");
    reveal_strlit("27");
    reveal_strlit("28");
    reveal_strlit("29");
    reveal_strlit("30");
    reveal_strlit("31");
    reveal_strlit("99");
    reveal_strlit("A satisfacción del acreedor");
    reveal_strlit("Aplicación de anticipos");
    reveal_strlit("Cheque nominativo");
    reveal_strlit("Compensación");
    reveal_strlit("Condonación");
    reveal_strlit("Confusión");
    reveal_strlit("Dación en pago");
    reveal_strlit("Dinero electrónico");
    reveal_strlit("Efectivo");
    reveal_strlit("Intermediario pagos");
    reveal_strlit("Monedero electrónico");
    reveal_strlit("Novación");
    reveal_strlit("Pago por consignación");
    reveal_strlit("Pago por subrogación");
    reveal_strlit("Por definir");
    reveal_strlit("Prescripción o caducidad");
    reveal_strlit("Remisión de deuda");
    reveal_strlit("Tarjeta de crédito");
    reveal_strlit("Tarjeta de débito");
    reveal_strlit("Tarjeta de servicios");
    reveal_strlit("Transferencia electrónica de fondos");
    reveal_strlit("Vales de despensa");
    assert("01"@[0] == '0');
    assert("01"@[1] == '1');
    assert("02"@[0] == '0');
    assert("02"@[1] == '2');
    assert("03"@[0] == '0');
    assert("03"@[1] == '3');
    assert("04"@[0] == '0');
    assert("04"@[1] == '4');
    assert("05"@[0] == '0');
    assert("05"@[1] == '5');
    assert("06"@[0] == '0');
    assert("06"@[1] == '6');
    assert("08"@[0] == '0');
    assert("08"@[1] == '8');
    assert("12"@[0] == '1');
    assert("12"@[1] == '2');
    assert("13"@[0] == '1');
    assert("13"@[1] == '3');
    assert("14"@[0] == '1');
    assert("14"@[1] == '4');
    assert("15"@[0] == '1');
    assert("15"@[1] == '5');
    assert("17"@[0] == '1');
    assert("17"@[1] == '7');
    assert("23"@[0] == '2');
    assert("23"@[1] == '3');
    assert("24"@[0] == '2');
    assert("24"@[1] == '4');
    assert("25"@[0] == '2');
    assert("25"@[1] == '5');
    assert("26"@[0] == '2');
    assert("26"@[1] == '6');
    assert("27"@[0] == '2');
    assert("27"@[1] == '7');
    assert("28"@[0] == '2');
    assert("28"@[1] == '8');
    assert("29"@[0] == '2');
    assert("29"@[1] == '9');
    assert("30"@[0] == '3');
    assert("30"@[1] == '0');
    assert("31"@[0] == '3');
    assert("31"@[1] == '1');
    assert("99"@[0] == '9');
    assert("Cheque nominativo"@[0] == 'C');
    assert("Condonación"@[0] == 'C');
    assert("Dinero electrónico"@[0] == 'D');
    assert("Efectivo"@[0] == 'E');
    assert("Monedero electrónico"@[0] == 'M');
    assert("Novación"@[0] == 'N');
    assert("Pago por subrogación"@[0] == 'P');
    assert("Por definir"@[0] == 'P');
    assert("Remisión de deuda"@[0] == 'R');
    assert("Tarjeta de crédito"@[0] == 'T');
    assert("Tarjeta de débito"@[0] == 'T');
    assert("Tarjeta de servicios"@[0] == 'T');
    assert("Vales de despensa"@[0] == 'V');
    assert("A satisfacción del acreedor"@.len() == 27);
    assert("Aplicación de anticipos"@.len() == 23);
    assert("Cheque nominativo"@.len() == 17);
    assert("Compensación"@.len() == 12);
    assert("Condonación"@.len() == 11);
    assert("Confusión"@.len() == 9);
    assert("Dación en pago"@.len() == 14);
    assert("Dinero electrónico"@.len() == 18);
    assert("Efectivo"@.len() == 8);
    assert("Intermediario pagos"@.len() == 19);
    assert("Monedero electrónico"@.len() == 20);
    assert("Novación"@.len() == 8);
    assert("Pago por consignación"@.len() == 21);
    assert("Pago por subrogación"@.len() == 20);
    assert("Por definir"@.len() == 11);
    assert("Prescripción o caducidad"@.len() == 24);
    assert("Remisión de deuda"@.len() == 17);
    assert("Tarjeta de crédito"@.len() == 18);
    assert("Tarjeta de débito"@.len() == 17);
    assert("Tarjeta de servicios"@.len() == 20);
    assert("Transferencia electrónica de fondos"@.len() == 35);
    assert("Vales de despensa"@.len() == 17);
}

/// The uses of a CFDI are those of the SAT catalogue c_UsoCFDI: each code has its own description, and no two codes share one.
pub proof fn ley_catalogo_uso_cfdi_desc()
    ensures
        uso_cfdi_desc("G01"@) == Some("Adquisición de mercancias"@),
        uso_cfdi_desc("G02"@) == Some("Devoluciones, descuentos o bonificaciones"@),
        uso_cfdi_desc("G03"@) == Some("Gastos en general"@),
        uso_cfdi_desc("I01"@) == Some("Construcciones"@),
        uso_cfdi_desc("I02"@) == Some("Mobilario y equipo de oficina por inversiones"@),
        uso_cfdi_desc("I03"@) == Some("Equipo de transporte"@),
        uso_cfdi_desc("I04"@) == Some("Equipo de computo y accesorios"@),
        uso_cfdi_desc("I05"@) == Some("Dados, troqueles, moldes, matrices y herramental"@),
        uso_cfdi_desc("I06"@) == Some("Comunicaciones telefónicas"@),
        uso_cfdi_desc("I07"@) == Some("Comunicaciones satelitales"@),
        uso_cfdi_desc("I08"@) == Some("Otra maquinaria y equipo"@),
        uso_cfdi_desc("D01"@) == Some("Honorarios médicos, dentales y gastos hospitalarios."@),
        uso_cfdi_desc("D02"@) == Some("Gastos médicos por incapacidad o discapacidad"@),
        uso_cfdi_desc("D03"@) == Some("Gastos funerales."@),
        uso_cfdi_desc("D04"@) == Some("Donativos."@),
        uso_cfdi_desc("D05"@) == Some("Intereses reales efectivamente pagados por créditos hipotecarios (casa habitación)."@),
        uso_cfdi_desc("D06"@) == Some("Aportaciones voluntarias al SAR."@),
        uso_cfdi_desc("D07"@) == Some("Primas por seguros de gastos médicos."@),
        uso_cfdi_desc("D08"@) == Some("Gastos de transportación escolar obligatoria."@),
        uso_cfdi_desc("D09"@) == Some("Depósitos en cuentas para el ahorro, primas que tengan como base planes de pensiones."@),
        uso_cfdi_desc("D10"@) == Some("Pagos por servicios educativos (colegiaturas)"@),
        uso_cfdi_desc("P01"@) == Some("Por definir"@),
        forall|a: Seq<char>, b: Seq<char>|
            #[trigger] uso_cfdi_desc(a) is Some && #[trigger] uso_cfdi_desc(b) == uso_cfdi_desc(a) ==> a == b,
{
    reveal_strlit("Adquisición de mercancias");
    reveal_strlit("Aportaciones voluntarias al SAR.");
    reveal_strlit("Comunicaciones satelitales");
    reveal_strlit("Comunicaciones telefónicas");
    reveal_strlit("Construcciones");
    reveal_strlit("D01");
    reveal_strlit("D02");
    reveal_strlit("D03");
    reveal_strlit("D04");
    reveal_strlit("D05");
    reveal_strlit("D06");
    reveal_strlit("D07");
    reveal_strlit("D08");
    reveal_strlit("D09");
    reveal_strlit("D10");
    reveal_strlit("Dados, troqueles, moldes, matrices y herramental");
    reveal_strlit("Depósitos en cuentas para el ahorro, primas que tengan como base planes de pensiones.");
    reveal_strlit("Devoluciones, descuentos o bonificaciones");
    reveal_strlit("Donativos.");
    reveal_strlit("Equipo de computo y accesorios");
    reveal_strlit("Equipo de transporte");
    reveal_strlit("G01");
    reveal_strlit("G02");
    reveal_strlit("G03");
    reveal_strlit("Gastos de transportación escolar obligatoria.");
    reveal_strlit("Gastos en general");
    reveal_strlit("Gastos funerales.");
    reveal_strlit("Gastos médicos por incapacidad o discapacidad");
    reveal_strlit("Honorarios médicos, dentales y gastos hospitalarios.");
    reveal_strlit("I01");
    reveal_strlit("I02");
    reveal_strlit("I03");
    reveal_strlit("I04");
    reveal_strlit("I05");
    reveal_strlit("I06");
    reveal_strlit("I07");
    reveal_strlit("I08");
    reveal_strlit("Intereses reales efectivamente pagados por créditos hipotecarios (casa habitación).");
    reveal_strlit("Mobilario y equipo de oficina por inversiones");
    reveal_strlit("Otra maquinaria y equipo");
    reveal_strlit("P01");
    reveal_strlit("Pagos por servicios educativos (colegiaturas)");
    reveal_strlit("Por definir");
    reveal_strlit("Primas por seguros de gastos médicos.");
    assert("Comunicaciones satelitales"@[15] == 's');
    assert("Comunicaciones telefónicas"@[15] == 't');
    assert("D01"@[0] == 'D');
    assert("D01"@[1] == '0');
    assert("D01"@[2] == '1');
    assert("D02"@[0] == 'D');
    assert("D02"@[1] == '0');
    assert("D02"@[2] == '2');
    assert("D03"@[0] == 'D');
    assert("D03"@[1] == '0');
    assert("D03"@[2] == '3');
    assert("D04"@[0] == 'D');
    assert("D04"@[1] == '0');
    assert("D04"@[2] == '4');
    assert("D05"@[0] == 'D');
    assert("D05"@[1] == '0');
    assert("D05"@[2] == '5');
    assert("D06"@[0] == 'D');
    assert("D06"@[1] == '0');
    assert("D06"@[2] == '6');
    assert("D07"@[0] == 'D');
    assert("D07"@[1] == '0');
    assert("D07"@[2] == '7');
    assert("D08"@[0] == 'D');
    assert("D08"@[1] == '0');
    assert("D08"@[2] == '8');
    assert("D09"@[0] == 'D');
    assert("D09"@[1] == '0');
    assert("D09"@[2] == '9');
    assert("D10"@[0] == 'D');
    assert("D10"@[1] == '1');
    assert("G01"@[0] == 'G');
    assert("G01"@[2] == '1');
    assert("G02"@[0] == 'G');
    assert("G02"@[2] == '2');
    assert("G03"@[0] == 'G');
    assert("G03"@[2] == '3');
    assert("Gastos de transportación escolar obligatoria."@[0] == 'G');
    assert("Gastos de transportación escolar obligatoria."@[7] == 'd');
    assert("Gastos en general"@[7] == 'e');
    assert("Gastos funerales."@[7] == 'f');
    assert("Gastos médicos por incapacidad o discapacidad"@[0] == 'G');
    assert("Gastos médicos por incapacidad o discapacidad"@[7] == 'm');
    assert("I01"@[0] == 'I');
    assert("I01"@[2] == '1');
    assert("I02"@[0] == 'I');
    assert("I02"@[2] == '2');
    assert("I03"@[0] == 'I');
    assert("I03"@[2] == '3');
    assert("I04"@[0] == 'I');
    assert("I04"@[2] == '4');
    assert("I05"@[0] == 'I');
    assert("I05"@[2] == '5');
    assert("I06"@[0] == 'I');
    assert("I06"@[2] == '6');
    assert("I07"@[0] == 'I');
    assert("I07"@[2] == '7');
    assert("I08"@[0] == 'I');
    assert("I08"@[2] == '8');
    assert("Mobilario y equipo de oficina por inversiones"@[0] == 'M');
    assert("P01"@[0] == 'P');
    assert("Pagos por servicios educativos (colegiaturas)"@[0] == 'P');
    assert("Adquisición de mercancias"@.len() == 25);
    assert("Aportaciones voluntarias al SAR."@.len() == 32);
    assert("Comunicaciones satelitales"@.len() == 26);
    assert("Comunicaciones telefónicas"@.len() == 26);
    assert("Construcciones"@.len() == 14);
    assert("Dados, troqueles, moldes, matrices y herramental"@.len() == 48);
    assert("Depósitos en cuentas para el ahorro, primas que tengan como base planes de pensiones."@.len() == 85);
    assert("Devoluciones, descuentos o bonificaciones"@.len() == 41);
    assert("Donativos."@.len() == 10);
    assert("Equipo de computo y accesorios"@.len() == 30);
    assert("Equipo de transporte"@.len() == 20);
    assert("Gastos de transportación escolar obligatoria."@.len() == 45);
    assert("Gastos en general"@.len() == 17);
    assert("Gastos funerales."@.len() == 17);
    assert("Gastos médicos por incapacidad o discapacidad"@.len() == 45);
    assert("Honorarios médicos, dentales y gastos hospitalarios."@.len() == 52);
    assert("Intereses reales efectivamente pagados por créditos hipotecarios (casa habitación)."@.len() == 83);
    assert("Mobilario y equipo de oficina por inversiones"@.len() == 45);
    assert("Otra maquinaria y equipo"@.len() == 24);
    assert("Pagos por servicios educativos (colegiaturas)"@.len() == 45);
    assert("Por definir"@.len() == 11);
    assert("Primas por seguros de gastos médicos."@.len() == 37);
}
} // verus!
