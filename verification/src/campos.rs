use vstd::prelude::*;

use crate::catalogos::{
    buscar_forma_pago_desc, buscar_regimen_fiscal_desc, buscar_tipo_comprobante,
    buscar_tipo_relacion_desc, buscar_uso_cfdi_desc, forma_pago_desc, regimen_fiscal_desc,
    tipo_comprobante, tipo_relacion_desc, uso_cfdi_desc,
};
use crate::plantillas::{
    escribir_rellenar, escribir_rellenar_cabe, escribir_rellenar_relacionados_cabe, rellenar,
    rellenar_cabe, rellenar_relacionados_cabe,
};
use crate::texto::{concatenar, iguales, une};
use crate::xml::{dato, get_data, Elemento, ElementoV};

verus! {

/// A catalogue key followed by its description: `clave - descripción`.
pub open spec fn con_descripcion(clave: Seq<char>, desc: Seq<char>) -> Seq<char> {
    une(seq![clave, " - "@, desc])
}

fn escribir_con_descripcion(clave: &str, desc: &str) -> (r: String)
    ensures
        r@ == con_descripcion(clave@, desc@),
{
    let r = concatenar(&[clave, " - ", desc]);
    assert(seq![clave, " - ", desc].map_values(|p: &str| p@) =~= seq![clave@, " - "@, desc@]);
    r
}

/// A tax code with the name of the tax appended (`002-IVA`); other codes
/// are left as they are.
pub open spec fn impuesto_completo(imp: Seq<char>) -> Seq<char> {
    if imp == "001"@ {
        une(seq![imp, "-"@, "ISR"@])
    } else if imp == "002"@ {
        une(seq![imp, "-"@, "IVA"@])
    } else if imp == "003"@ {
        une(seq![imp, "-"@, "IEPS"@])
    } else {
        imp
    }
}

/// Completes a tax code with the name of the tax.
pub fn completar_impuesto(imp: &str) -> (r: String)
    ensures
        r@ == impuesto_completo(imp@),
{
    let val = if iguales(imp, "001") {
        "ISR"
    } else if iguales(imp, "002") {
        "IVA"
    } else if iguales(imp, "003") {
        "IEPS"
    } else {
        return imp.to_owned();
    };
    let r = concatenar(&[imp, "-", val]);
    assert(seq![imp, "-", val].map_values(|p: &str| p@) =~= seq![imp@, "-"@, val@]);
    r
}

/// The header field with the type of the document, when the type is in the catalogue.
pub open spec fn comando_tipo_cfdi(e: ElementoV) -> Option<Seq<char>> {
    let clave = dato(e, "TipoDeComprobante"@);
    match tipo_comprobante(clave) {
        Some(t) => Some(rellenar_cabe("tipoComp"@, "Tipo Comprobante"@, con_descripcion(clave, t))),
        None => None,
    }
}

/// The view call that shows the type of the document, if it is a known type.
pub fn tipo_cfdi(cfdi: &Elemento) -> (r: Option<String>)
    ensures
        r matches Some(c) ==> comando_tipo_cfdi(cfdi@) == Some(c@),
        r is None ==> comando_tipo_cfdi(cfdi@) is None,
{
    let clave = get_data(cfdi, "TipoDeComprobante");
    match buscar_tipo_comprobante(clave) {
        Some(t) => {
            let d = escribir_con_descripcion(clave, t);
            Some(escribir_rellenar_cabe("tipoComp", "Tipo Comprobante", d.as_str()))
        },
        None => None,
    }
}

/// The title of the related documents, when the relation is in the catalogue.
pub open spec fn comando_tipo_relacion(e: ElementoV) -> Option<Seq<char>> {
    let clave = dato(e, "TipoRelacion"@);
    match tipo_relacion_desc(clave) {
        Some(t) => Some(rellenar_relacionados_cabe(con_descripcion(clave, t))),
        None => None,
    }
}

/// The view call that titles the related documents, if the relation is known.
pub fn tipo_relacion(cfdi: &Elemento) -> (r: Option<String>)
    ensures
        r matches Some(c) ==> comando_tipo_relacion(cfdi@) == Some(c@),
        r is None ==> comando_tipo_relacion(cfdi@) is None,
{
    let clave = get_data(cfdi, "TipoRelacion");
    match buscar_tipo_relacion_desc(clave) {
        Some(t) => {
            let d = escribir_con_descripcion(clave, t);
            Some(escribir_rellenar_relacionados_cabe(d.as_str()))
        },
        None => None,
    }
}

/// The issuer's tax regime field, when the regime is in the catalogue.
pub open spec fn comando_regimen_fiscal(e: ElementoV) -> Option<Seq<char>> {
    let clave = dato(e, "RegimenFiscal"@);
    match regimen_fiscal_desc(clave) {
        Some(t) => Some(rellenar("regimenEmi"@, "Regimen Fiscal"@, con_descripcion(clave, t))),
        None => None,
    }
}

/// The view call that shows the issuer's tax regime, if it is known.
pub fn regimen_fiscal(cfdi: &Elemento) -> (r: Option<String>)
    ensures
        r matches Some(c) ==> comando_regimen_fiscal(cfdi@) == Some(c@),
        r is None ==> comando_regimen_fiscal(cfdi@) is None,
{
    let clave = get_data(cfdi, "RegimenFiscal");
    match buscar_regimen_fiscal_desc(clave) {
        Some(t) => {
            let d = escribir_con_descripcion(clave, t);
            Some(escribir_rellenar("regimenEmi", "Regimen Fiscal", d.as_str()))
        },
        None => None,
    }
}

/// The receiver's use field, when the use is in the catalogue.
pub open spec fn comando_uso_cfdi(e: ElementoV) -> Option<Seq<char>> {
    let clave = dato(e, "UsoCFDI"@);
    match uso_cfdi_desc(clave) {
        Some(t) => Some(rellenar("usoCfdi"@, "Uso CFDI"@, con_descripcion(clave, t))),
        None => None,
    }
}

/// The view call that shows what the receiver uses the document for, if known.
pub fn uso_cfdi(cfdi: &Elemento) -> (r: Option<String>)
    ensures
        r matches Some(c) ==> comando_uso_cfdi(cfdi@) == Some(c@),
        r is None ==> comando_uso_cfdi(cfdi@) is None,
{
    let clave = get_data(cfdi, "UsoCFDI");
    match buscar_uso_cfdi_desc(clave) {
        Some(t) => {
            let d = escribir_con_descripcion(clave, t);
            Some(escribir_rellenar("usoCfdi", "Uso CFDI", d.as_str()))
        },
        None => None,
    }
}

/// The payment method attribute `tit` of `e`, spelled out for `PUE` and `PPD`.
pub open spec fn texto_metodo_pago(e: ElementoV, tit: Seq<char>) -> Seq<char> {
    let clave = dato(e, tit);
    if clave == "PUE"@ {
        "PUE - Pago en una sola exhibición"@
    } else if clave == "PPD"@ {
        "PPD - Pago en parcialidades o diferido"@
    } else {
        clave
    }
}

/// The payment method read from attribute `tit`.
pub fn metodo_pago(cfdi: &Elemento, tit: &str) -> (r: String)
    ensures
        r@ == texto_metodo_pago(cfdi@, tit@),
{
    let clave = get_data(cfdi, tit);
    if iguales(clave, "PUE") {
        "PUE - Pago en una sola exhibición".to_owned()
    } else if iguales(clave, "PPD") {
        "PPD - Pago en parcialidades o diferido".to_owned()
    } else {
        clave.to_owned()
    }
}

/// The payment form attribute `tit` of `e` with its description, when the
/// form is in the catalogue.
pub open spec fn texto_forma_pago(e: ElementoV, tit: Seq<char>) -> Seq<char> {
    let clave = dato(e, tit);
    match forma_pago_desc(clave) {
        Some(t) => con_descripcion(clave, t),
        None => clave,
    }
}

/// The payment form read from attribute `tit`.
pub fn forma_pago(cfdi: &Elemento, tit: &str) -> (r: String)
    ensures
        r@ == texto_forma_pago(cfdi@, tit@),
{
    let clave = get_data(cfdi, tit);
    match buscar_forma_pago_desc(clave) {
        Some(t) => escribir_con_descripcion(clave, t),
        None => clave.to_owned(),
    }
}

/// The view call that fills field `id_html`, titled `tit_html`, with the
/// attribute `at_xml` of `cfdi`, and the value of that attribute.
pub fn mandar_datos_web_view(cfdi: &Elemento, at_xml: &str, id_html: &str, tit_html: &str) -> (r: (
    String,
    String,
))
    ensures
        r.0@ == rellenar(id_html@, tit_html@, dato(cfdi@, at_xml@)),
        r.1@ == dato(cfdi@, at_xml@),
{
    let dato = get_data(cfdi, at_xml);
    (escribir_rellenar(id_html, tit_html, dato), dato.to_owned())
}

/// The same as [`mandar_datos_web_view`] for a field of the header.
pub fn mandar_datos_web_view_cabe(cfdi: &Elemento, at_xml: &str, id_html: &str, tit_html: &str) -> (r: (
    String,
    String,
))
    ensures
        r.0@ == rellenar_cabe(id_html@, tit_html@, dato(cfdi@, at_xml@)),
        r.1@ == dato(cfdi@, at_xml@),
{
    let dato = get_data(cfdi, at_xml);
    (escribir_rellenar_cabe(id_html, tit_html, dato), dato.to_owned())
}


proof fn lema_une3(a: Seq<char>, b: Seq<char>, c: Seq<char>)
    ensures
        une(seq![a, b, c]) == a + b + c,
{
    reveal_with_fuel(une, 4);
    assert(seq![a, b, c].drop_last() =~= seq![a, b]);
    assert(seq![a, b].drop_last() =~= seq![a]);
    assert(seq![a].drop_last() =~= Seq::<Seq<char>>::empty());
    assert(Seq::<char>::empty() + a =~= a);
}

/// Completing a tax code twice is the same as completing it once.
pub proof fn ley_impuesto_idempotente(imp: Seq<char>)
    ensures
        impuesto_completo(impuesto_completo(imp)) == impuesto_completo(imp),
{
    reveal_strlit("001");
    reveal_strlit("002");
    reveal_strlit("003");
    reveal_strlit("-");
    reveal_strlit("ISR");
    reveal_strlit("IVA");
    reveal_strlit("IEPS");
    assert("001"@.len() == 3 && "002"@.len() == 3 && "003"@.len() == 3 && "-"@.len() == 1);
    assert("ISR"@.len() == 3 && "IVA"@.len() == 3 && "IEPS"@.len() == 4);
    lema_une3(imp, "-"@, "ISR"@);
    lema_une3(imp, "-"@, "IVA"@);
    lema_une3(imp, "-"@, "IEPS"@);
}

/// The payment form shown always begins with the code the document holds.
pub proof fn ley_forma_pago_empieza_con_clave(e: ElementoV, tit: Seq<char>)
    ensures
        dato(e, tit).is_prefix_of(texto_forma_pago(e, tit)),
{
    let clave = dato(e, tit);
    if let Some(t) = forma_pago_desc(clave) {
        lema_une3(clave, " - "@, t);
        assert((clave + " - "@ + t).take(clave.len() as int) =~= clave);
    } else {
        assert(clave.take(clave.len() as int) =~= clave);
    }
}

/// The payment method shown always begins with the code the document holds.
pub proof fn ley_metodo_pago_empieza_con_clave(e: ElementoV, tit: Seq<char>)
    ensures
        dato(e, tit).is_prefix_of(texto_metodo_pago(e, tit)),
{
    let clave = dato(e, tit);
    reveal_strlit("PUE");
    reveal_strlit("PPD");
    reveal_strlit("PUE - Pago en una sola exhibición");
    reveal_strlit("PPD - Pago en parcialidades o diferido");
    if clave == "PUE"@ {
        assert("PUE - Pago en una sola exhibición"@.take(3) =~= "PUE"@);
    } else if clave == "PPD"@ {
        assert("PPD - Pago en parcialidades o diferido"@.take(3) =~= "PPD"@);
    } else {
        assert(clave.take(clave.len() as int) =~= clave);
    }
}

/// The catalogue fields show `code - description` when the document's code
/// is in the catalogue, and nothing otherwise: the type of document in the
/// header (`tipoComp`), the relation of the related documents, the issuer's
/// tax regime (`regimenEmi`) and the receiver's use (`usoCfdi`); the form of
/// payment is `code - description` or the bare code; the payment method
/// spells out `PUE` and `PPD` and leaves other codes bare; a tax code is
/// followed by `-ISR`, `-IVA` or `-IEPS` for `001`, `002` and `003`.
pub proof fn ley_campos(e: ElementoV, tit: Seq<char>, imp: Seq<char>)
    ensures
        comando_tipo_cfdi(e) == (match tipo_comprobante(dato(e, "TipoDeComprobante"@)) {
            Some(t) => Some(
                une(
                    seq![
                        "rellenarCabe('"@,
                        "tipoComp"@,
                        "', '"@,
                        "Tipo Comprobante"@,
                        "', '"@,
                        dato(e, "TipoDeComprobante"@) + " - "@ + t,
                        "')"@,
                    ],
                ),
            ),
            None => None,
        }),
        comando_tipo_relacion(e) == (match tipo_relacion_desc(dato(e, "TipoRelacion"@)) {
            Some(t) => Some(
                une(seq!["rellenarRelacionadosCabe('"@, dato(e, "TipoRelacion"@) + " - "@ + t, "')"@]),
            ),
            None => None,
        }),
        comando_regimen_fiscal(e) == (match regimen_fiscal_desc(dato(e, "RegimenFiscal"@)) {
            Some(t) => Some(
                une(
                    seq![
                        "rellenar('"@,
                        "regimenEmi"@,
                        "', '"@,
                        "Regimen Fiscal"@,
                        "', '"@,
                        dato(e, "RegimenFiscal"@) + " - "@ + t,
                        "')"@,
                    ],
                ),
            ),
            None => None,
        }),
        comando_uso_cfdi(e) == (match uso_cfdi_desc(dato(e, "UsoCFDI"@)) {
            Some(t) => Some(
                une(
                    seq![
                        "rellenar('"@,
                        "usoCfdi"@,
                        "', '"@,
                        "Uso CFDI"@,
                        "', '"@,
                        dato(e, "UsoCFDI"@) + " - "@ + t,
                        "')"@,
                    ],
                ),
            ),
            None => None,
        }),
        texto_forma_pago(e, tit) == (match forma_pago_desc(dato(e, tit)) {
            Some(t) => dato(e, tit) + " - "@ + t,
            None => dato(e, tit),
        }),
        texto_metodo_pago(e, tit) == (if dato(e, tit) == "PUE"@ {
            "PUE - Pago en una sola exhibición"@
        } else if dato(e, tit) == "PPD"@ {
            "PPD - Pago en parcialidades o diferido"@
        } else {
            dato(e, tit)
        }),
        impuesto_completo(imp) == (if imp == "001"@ {
            imp + "-ISR"@
        } else if imp == "002"@ {
            imp + "-IVA"@
        } else if imp == "003"@ {
            imp + "-IEPS"@
        } else {
            imp
        }),
{
    reveal_strlit("-ISR");
    reveal_strlit("-IVA");
    reveal_strlit("-IEPS");
    reveal_strlit("-");
    reveal_strlit("ISR");
    reveal_strlit("IVA");
    reveal_strlit("IEPS");
    assert("-ISR"@ =~= "-"@ + "ISR"@);
    assert("-IVA"@ =~= "-"@ + "IVA"@);
    assert("-IEPS"@ =~= "-"@ + "IEPS"@);
    lema_une3(imp, "-"@, "ISR"@);
    lema_une3(imp, "-"@, "IVA"@);
    lema_une3(imp, "-"@, "IEPS"@);
    if let Some(t) = tipo_comprobante(dato(e, "TipoDeComprobante"@)) {
        lema_une3(dato(e, "TipoDeComprobante"@), " - "@, t);
    }
    if let Some(t) = tipo_relacion_desc(dato(e, "TipoRelacion"@)) {
        lema_une3(dato(e, "TipoRelacion"@), " - "@, t);
    }
    if let Some(t) = regimen_fiscal_desc(dato(e, "RegimenFiscal"@)) {
        lema_une3(dato(e, "RegimenFiscal"@), " - "@, t);
    }
    if let Some(t) = uso_cfdi_desc(dato(e, "UsoCFDI"@)) {
        lema_une3(dato(e, "UsoCFDI"@), " - "@, t);
    }
    if let Some(t) = forma_pago_desc(dato(e, tit)) {
        lema_une3(dato(e, tit), " - "@, t);
    }
    assert(imp + "-"@ + "ISR"@ =~= imp + ("-"@ + "ISR"@));
    assert(imp + "-"@ + "IVA"@ =~= imp + ("-"@ + "IVA"@));
    assert(imp + "-"@ + "IEPS"@ =~= imp + ("-"@ + "IEPS"@));
}

} // verus!
