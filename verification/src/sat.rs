use vstd::prelude::*;

use crate::plantillas::{es_valido, escribir_es_valido};
use crate::texto::{
    concatenar, dividir, esta_en, lema_ocurrencia_exacta, lema_sin_ocurrencia, partes, une, vistas,
};

verus! {

broadcast use vstd::string::group_string_axioms;


/// The printed expression that identifies a CFDI to the SAT.
pub open spec fn expresion_impresa(re: Seq<char>, rr: Seq<char>, tt: Seq<char>, id: Seq<char>) -> Seq<
    char,
> {
    une(seq!["<![CDATA[?re="@, re, "&rr="@, rr, "&tt="@, tt, "&id="@, id, "]]>"@])
}

/// The SOAP envelope of the query for the CFDI with these data.
pub open spec fn cuerpo_consulta(re: Seq<char>, rr: Seq<char>, tt: Seq<char>, id: Seq<char>) -> Seq<
    char,
> {
    une(
        seq![
            "<soapenv:Envelope xmlns:soapenv=\"http://schemas.xmlsoap.org/soap/envelope/\" xmlns:tem=\"http://tempuri.org/\"><soapenv:Header/><soapenv:Body><tem:Consulta><!--Optional:--><tem:expresionImpresa>"@,
            expresion_impresa(re, rr, tt, id),
            "</tem:expresionImpresa></tem:Consulta></soapenv:Body></soapenv:Envelope>"@,
        ],
    )
}

/// Writes the body of the query about the CFDI of issuer `rfc_emit`,
/// receiver `rfc_recib`, total `total` and fiscal folio `uuid`.
pub fn consulta_sat(rfc_emit: &str, rfc_recib: &str, total: &str, uuid: &str) -> (r: String)
    ensures
        r@ == cuerpo_consulta(rfc_emit@, rfc_recib@, total@, uuid@),
{
    let cdata = concatenar(
        &["<![CDATA[?re=", rfc_emit, "&rr=", rfc_recib, "&tt=", total, "&id=", uuid, "]]>"],
    );
    assert(seq!["<![CDATA[?re=", rfc_emit, "&rr=", rfc_recib, "&tt=", total, "&id=", uuid, "]]>"].map_values(
        |p: &str| p@,
    ) =~= seq![
        "<![CDATA[?re="@,
        rfc_emit@,
        "&rr="@,
        rfc_recib@,
        "&tt="@,
        total@,
        "&id="@,
        uuid@,
        "]]>"@,
    ]);
    let c = cdata.as_str();
    let r = concatenar(
        &[
            "<soapenv:Envelope xmlns:soapenv=\"http://schemas.xmlsoap.org/soap/envelope/\" xmlns:tem=\"http://tempuri.org/\"><soapenv:Header/><soapenv:Body><tem:Consulta><!--Optional:--><tem:expresionImpresa>",
            c,
            "</tem:expresionImpresa></tem:Consulta></soapenv:Body></soapenv:Envelope>",
        ],
    );
    assert(seq![
        "<soapenv:Envelope xmlns:soapenv=\"http://schemas.xmlsoap.org/soap/envelope/\" xmlns:tem=\"http://tempuri.org/\"><soapenv:Header/><soapenv:Body><tem:Consulta><!--Optional:--><tem:expresionImpresa>",
        c,
        "</tem:expresionImpresa></tem:Consulta></soapenv:Body></soapenv:Envelope>",
    ].map_values(|p: &str| p@) =~= seq![
        "<soapenv:Envelope xmlns:soapenv=\"http://schemas.xmlsoap.org/soap/envelope/\" xmlns:tem=\"http://tempuri.org/\"><soapenv:Header/><soapenv:Body><tem:Consulta><!--Optional:--><tem:expresionImpresa>"@,
        c@,
        "</tem:expresionImpresa></tem:Consulta></soapenv:Body></soapenv:Envelope>"@,
    ]);
    r
}

/// The POST request that asks the SAT whether a CFDI is in force.
pub struct PeticionSat {
    /// Address of the service.
    pub url: String,
    /// Headers, set in this order.
    pub cabeceras: Vec<(String, String)>,
    /// The SOAP envelope.
    pub cuerpo: String,
    /// Milliseconds the request waits for a connection.
    pub espera_conexion_ms: u64,
}

/// Address of the SAT service that reports whether a CFDI is in force.
pub open spec fn url_consulta() -> Seq<char> {
    "https://consultaqr.facturaelectronica.sat.gob.mx/ConsultaCFDIService.svc?wsdl"@
}

/// The headers of the query, in the order they are set.
pub open spec fn cabeceras_consulta() -> Seq<(Seq<char>, Seq<char>)> {
    seq![
        ("Content-type"@, "text/xml;charset=\"utf-8\""@),
        ("Content-type"@, "text/xml;charset=\"utf-8\""@),
        ("Accept"@, "value: V"@),
        ("SOAPAction"@, "http://tempuri.org/IConsultaCFDIService/Consulta"@),
    ]
}

/// The headers of a request as mathematical values.
pub open spec fn vista_cabeceras(v: Seq<(String, String)>) -> Seq<(Seq<char>, Seq<char>)> {
    v.map_values(|p: (String, String)| (p.0@, p.1@))
}

/// The request that asks the SAT about the CFDI of issuer `rfc_emit`,
/// receiver `rfc_recib`, total `total` and fiscal folio `uuid`: always the
/// same address, headers and wait, and a body made of these four texts
/// alone (see [`ley_cuerpo_consulta`]). What comes back is read by
/// [`respuesta_cfdi_sat`].
pub fn validar_cfdi_sat(rfc_emit: &str, rfc_recib: &str, total: &str, uuid: &str) -> (r: PeticionSat)
    ensures
        r.url@ == url_consulta(),
        vista_cabeceras(r.cabeceras@) == cabeceras_consulta(),
        r.cuerpo@ == cuerpo_consulta(rfc_emit@, rfc_recib@, total@, uuid@),
        r.espera_conexion_ms == 5000,
{
    let mut cabeceras: Vec<(String, String)> = Vec::new();
    cabeceras.push(("Content-type".to_owned(), "text/xml;charset=\"utf-8\"".to_owned()));
    cabeceras.push(("Content-type".to_owned(), "text/xml;charset=\"utf-8\"".to_owned()));
    cabeceras.push(("Accept".to_owned(), "value: V".to_owned()));
    cabeceras.push(
        ("SOAPAction".to_owned(), "http://tempuri.org/IConsultaCFDIService/Consulta".to_owned()),
    );
    assert(vista_cabeceras(cabeceras@) =~= cabeceras_consulta());
    PeticionSat {
        url: "https://consultaqr.facturaelectronica.sat.gob.mx/ConsultaCFDIService.svc?wsdl".to_owned(),
        cabeceras,
        cuerpo: consulta_sat(rfc_emit, rfc_recib, total, uuid),
        espera_conexion_ms: 5000,
    }
}

/// The body of the query is the fixed envelope with the four texts put in,
/// each as it is, in the printed expression `?re=..&rr=..&tt=..&id=..`.
pub proof fn ley_cuerpo_consulta(re: Seq<char>, rr: Seq<char>, tt: Seq<char>, id: Seq<char>)
    ensures
        cuerpo_consulta(re, rr, tt, id) == "<soapenv:Envelope xmlns:soapenv=\"http://schemas.xmlsoap.org/soap/envelope/\" xmlns:tem=\"http://tempuri.org/\"><soapenv:Header/><soapenv:Body><tem:Consulta><!--Optional:--><tem:expresionImpresa>"@
            + "<![CDATA[?re="@ + re + "&rr="@ + rr + "&tt="@ + tt + "&id="@ + id + "]]>"@
            + "</tem:expresionImpresa></tem:Consulta></soapenv:Body></soapenv:Envelope>"@,
{
    reveal_with_fuel(une, 10);
    let e = seq!["<![CDATA[?re="@, re, "&rr="@, rr, "&tt="@, tt, "&id="@, id, "]]>"@];
    assert(une(e) =~= "<![CDATA[?re="@ + re + "&rr="@ + rr + "&tt="@ + tt + "&id="@ + id + "]]>"@) by {
        assert(e.drop_last() =~= seq!["<![CDATA[?re="@, re, "&rr="@, rr, "&tt="@, tt, "&id="@, id]);
        assert(e.drop_last().drop_last() =~= seq!["<![CDATA[?re="@, re, "&rr="@, rr, "&tt="@, tt, "&id="@]);
        assert(e.drop_last().drop_last().drop_last() =~= seq!["<![CDATA[?re="@, re, "&rr="@, rr, "&tt="@, tt]);
        assert(e.drop_last().drop_last().drop_last().drop_last() =~= seq!["<![CDATA[?re="@, re, "&rr="@, rr, "&tt="@]);
        assert(e.drop_last().drop_last().drop_last().drop_last().drop_last() =~= seq!["<![CDATA[?re="@, re, "&rr="@, rr]);
        assert(seq!["<![CDATA[?re="@, re, "&rr="@, rr].drop_last() =~= seq!["<![CDATA[?re="@, re, "&rr="@]);
        assert(seq!["<![CDATA[?re="@, re, "&rr="@].drop_last() =~= seq!["<![CDATA[?re="@, re]);
        assert(seq!["<![CDATA[?re="@, re].drop_last() =~= seq!["<![CDATA[?re="@]);
        assert(seq!["<![CDATA[?re="@].drop_last() =~= Seq::<Seq<char>>::empty());
        assert(Seq::<char>::empty() + "<![CDATA[?re="@ =~= "<![CDATA[?re="@);
    }
    let f = seq![
        "<soapenv:Envelope xmlns:soapenv=\"http://schemas.xmlsoap.org/soap/envelope/\" xmlns:tem=\"http://tempuri.org/\"><soapenv:Header/><soapenv:Body><tem:Consulta><!--Optional:--><tem:expresionImpresa>"@,
        expresion_impresa(re, rr, tt, id),
        "</tem:expresionImpresa></tem:Consulta></soapenv:Body></soapenv:Envelope>"@,
    ];
    assert(f.drop_last().drop_last().drop_last() =~= Seq::<Seq<char>>::empty());
    assert(f.drop_last().drop_last() =~= seq![f[0]]);
    assert(f.drop_last() =~= seq![f[0], f[1]]);
    assert(Seq::<char>::empty() + f[0] =~= f[0]);
}

/// What came back from the SAT service.
pub enum RespuestaSat {
    /// The service did not answer with a 2xx status.
    No2xx,
    /// The answer had a 2xx status but its body could not be read as text.
    SinTexto,
    /// The body of a 2xx answer.
    Texto(String),
}

/// The text of the `Estado` element of an answer, when the answer has
/// exactly one `<a:Estado>` tag.
pub open spec fn estado_respuesta(res: Seq<char>) -> Option<Seq<char>> {
    let esta = partes(res, "<a:Estado>"@);
    if esta.len() == 2 {
        Some(partes(esta[1], "</a:Estado>"@)[0])
    } else {
        None
    }
}

/// An answer with a single `Estado` element, and no `<` anywhere else, is
/// read as the text inside that element.
pub proof fn ley_estado_leido(pre: Seq<char>, x: Seq<char>, post: Seq<char>)
    requires
        !pre.contains('<'),
        !x.contains('<'),
        !post.contains('<'),
    ensures
        estado_respuesta(pre + "<a:Estado>"@ + x + "</a:Estado>"@ + post) == Some(x),
{
    reveal_strlit("<a:Estado>");
    reveal_strlit("</a:Estado>");
    let a = "<a:Estado>"@;
    let b = "</a:Estado>"@;
    assert(a =~= seq!['<', 'a', ':', 'E', 's', 't', 'a', 'd', 'o', '>']);
    assert(b =~= seq!['<', '/', 'a', ':', 'E', 's', 't', 'a', 'd', 'o', '>']);
    let s = pre + a + x + b + post;
    assert forall|q: int| 0 <= q < pre.len() implies !#[trigger] esta_en(s, a, q) by {
        if esta_en(s, a, q) {
            assert(s.subrange(q, q + a.len())[0] == a[0]);
            assert(s[q] == pre[q]);
        }
    }
    assert(s.subrange(pre.len() as int, (pre.len() + a.len()) as int) =~= a);
    lema_ocurrencia_exacta(s, a, pre.len() as int);
    let resto = x + b + post;
    assert(s.skip((pre.len() + a.len()) as int) =~= resto);
    assert(s.take(pre.len() as int) =~= pre);
    assert forall|q: int| !#[trigger] esta_en(resto, a, q) by {
        if esta_en(resto, a, q) {
            let w = resto.subrange(q, q + a.len());
            assert(w[0] == '<' && w[1] == 'a');
            assert(resto[q] == '<');
            assert(resto[q + 1] == 'a');
            if q < x.len() {
                assert(resto[q] == x[q]);
            } else if q == x.len() {
                assert(resto[q + 1] == b[1]);
            } else if q < x.len() + b.len() {
                assert(resto[q] == b[q - x.len()]);
            } else {
                assert(resto[q] == post[q - x.len() - b.len()]);
            }
        }
    }
    lema_sin_ocurrencia(resto, a);
    assert(partes(resto, a) == seq![resto]);
    assert(partes(s, a) =~= seq![pre, resto]);
    assert forall|q: int| 0 <= q < x.len() implies !#[trigger] esta_en(resto, b, q) by {
        if esta_en(resto, b, q) {
            assert(resto.subrange(q, q + b.len())[0] == b[0]);
            assert(resto[q] == x[q]);
        }
    }
    assert(resto.subrange(x.len() as int, (x.len() + b.len()) as int) =~= b);
    lema_ocurrencia_exacta(resto, b, x.len() as int);
    assert(resto.take(x.len() as int) =~= x);
}

/// The view call that reports the answer of the SAT to the request of
/// [`validar_cfdi_sat`], and whether the answer said what state the CFDI is in.
pub fn respuesta_cfdi_sat(respuesta: &RespuestaSat) -> (r: (String, bool))
    ensures
        respuesta matches RespuestaSat::No2xx ==> r.0@ == es_valido("pendienteNo2xx"@) && !r.1,
        respuesta matches RespuestaSat::SinTexto ==> r.0@ == es_valido("pendienteOk"@) && !r.1,
        respuesta matches RespuestaSat::Texto(t) ==> match estado_respuesta(t@) {
            Some(e) => r.0@ == es_valido(e) && r.1,
            None => r.0@ == es_valido("pendienteOk"@) && !r.1,
        },
{
    match respuesta {
        RespuestaSat::No2xx => (escribir_es_valido("pendienteNo2xx"), false),
        RespuestaSat::SinTexto => (escribir_es_valido("pendienteOk"), false),
        RespuestaSat::Texto(res) => {
            proof {
                reveal_strlit("<a:Estado>");
                reveal_strlit("</a:Estado>");
                crate::texto::lema_partes_no_vacias(res@, "<a:Estado>"@);
            }
            let esta = dividir(res.as_str(), "<a:Estado>");
            assert(vistas(esta@).len() == esta@.len());
            if esta.len() == 2 {
                assert(esta@[1]@ == vistas(esta@)[1]);
                proof {
                    crate::texto::lema_partes_no_vacias(esta@[1]@, "</a:Estado>"@);
                }
                let dos = dividir(esta[1].as_str(), "</a:Estado>");
                assert(dos@[0]@ == vistas(dos@)[0]);
                (escribir_es_valido(dos[0].as_str()), true)
            } else {
                (escribir_es_valido("pendienteOk"), false)
            }
        },
    }
}


/// The call that reports the SAT's answer is `esValido('...')` around the
/// state, written as it is.
pub proof fn ley_es_valido(estado: Seq<char>)
    ensures
        es_valido(estado) == "esValido('"@ + estado + "')"@,
{
    reveal_with_fuel(une, 4);
    let f = seq!["esValido('"@, estado, "')"@];
    assert(f.drop_last().drop_last().drop_last() =~= Seq::<Seq<char>>::empty());
    assert(f.drop_last().drop_last() =~= seq![f[0]]);
    assert(f.drop_last() =~= seq![f[0], f[1]]);
    assert(Seq::<char>::empty() + f[0] =~= f[0]);
}
} // verus!
