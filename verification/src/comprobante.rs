use vstd::prelude::*;

use crate::campos::{
    comando_regimen_fiscal, comando_tipo_cfdi, comando_tipo_relacion, comando_uso_cfdi,
    completar_impuesto, forma_pago, impuesto_completo, mandar_datos_web_view,
    mandar_datos_web_view_cabe, metodo_pago, regimen_fiscal, texto_forma_pago,
    texto_metodo_pago, tipo_cfdi, tipo_relacion, uso_cfdi,
};
use crate::catalogos::tipo_relacion_desc;
use crate::dinero::{dinero, formato_dinero};
use crate::plantillas::{
    add_concep, add_relacionado, add_tras_ret_concep, add_tras_ret_imp, escribir_add_concep,
    escribir_add_relacionado, escribir_add_tras_ret_concep, escribir_add_tras_ret_imp,
    escribir_pago_cabe, escribir_poner_qr, escribir_rellenar, escribir_rellenar_cabe,
    escribir_rellenar_cortado, escribir_tras_ret_concep_cabe, pago_cabe, poner_qr, rellenar,
    rellenar_cabe, rellenar_cortado, tras_ret_concep_cabe,
};
use crate::texto::{
    cola_sello, concatenar, decimal, dividir, fecha_separable, iguales, numero, partes, sello_recortable,
    separar_datetime, ultimos_ocho, une, vistas,
};
use crate::xml::{dato, elementos, elementos_hijos, get_data, vistas_elementos, Elemento, ElementoV};

verus! {

broadcast use vstd::string::group_string_axioms;

/// The lists `f(0)`, ..., `f(n - 1)` one after the other.
pub open spec fn aplanar(n: nat, f: spec_fn(int) -> Seq<Seq<char>>) -> Seq<Seq<char>>
    decreases n,
{
    if n == 0 {
        Seq::empty()
    } else {
        aplanar((n - 1) as nat, f) + f(n - 1)
    }
}

/// A shorter flattening is a prefix of a longer one.
pub proof fn lema_aplanar_prefijo(n: nat, m: nat, f: spec_fn(int) -> Seq<Seq<char>>)
    requires
        m <= n,
    ensures
        aplanar(m, f).is_prefix_of(aplanar(n, f)),
    decreases n,
{
    if m < n {
        lema_aplanar_prefijo((n - 1) as nat, m, f);
        assert(aplanar(n, f) == aplanar((n - 1) as nat, f) + f(n - 1));
    }
}

/// The `j`-th call of `f(i)` stands in the flattening right after the calls
/// of `f(0)`, ..., `f(i - 1)`.
pub proof fn lema_aplanar_indice(n: nat, f: spec_fn(int) -> Seq<Seq<char>>, i: int, j: int)
    requires
        0 <= i < n,
        0 <= j < f(i).len(),
    ensures
        aplanar(i as nat, f).len() + j < aplanar(n, f).len(),
        aplanar(n, f)[aplanar(i as nat, f).len() + j] == f(i)[j],
{
    lema_aplanar_prefijo(n, (i + 1) as nat, f);
    let a = aplanar((i + 1) as nat, f);
    let b = aplanar(n, f);
    let k = aplanar(i as nat, f).len() + j;
    assert(a == aplanar(i as nat, f) + f(i));
    assert(a[k] == f(i)[j]);
    assert(a =~= b.subrange(0, a.len() as int));
    assert(b.subrange(0, a.len() as int)[k] == b[k]);
}

/// A flattening of single calls has one call per index.
pub proof fn lema_aplanar_unitario(n: nat, f: spec_fn(int) -> Seq<Seq<char>>)
    requires
        forall|i: int| 0 <= i < n ==> (#[trigger] f(i)).len() == 1,
    ensures
        aplanar(n, f).len() == n,
    decreases n,
{
    if n > 0 {
        lema_aplanar_unitario((n - 1) as nat, f);
        assert(f(n - 1).len() == 1);
    }
}

/// The one call in `o`, if any.
pub open spec fn opcional(o: Option<Seq<char>>) -> Seq<Seq<char>> {
    match o {
        Some(c) => seq![c],
        None => Seq::empty(),
    }
}

/// Appends `c` to `out`.
fn anexar(out: &mut Vec<String>, c: Vec<String>)
    ensures
        vistas(final(out)@) == vistas(old(out)@) + vistas(c@),
{
    let mut c = c;
    let ghost a = out@;
    let ghost b = c@;
    out.append(&mut c);
    assert(vistas(out@) =~= vistas(a) + vistas(b));
}

/// Appends the call in `o`, if any.
fn anexar_opcional(out: &mut Vec<String>, o: Option<String>, Ghost(v): Ghost<Option<Seq<char>>>)
    requires
        o matches Some(c) ==> v == Some(c@),
        o is None ==> v is None,
    ensures
        vistas(final(out)@) == vistas(old(out)@) + opcional(v),
{
    let ghost a = out@;
    match o {
        Some(c) => {
            out.push(c);
            assert(vistas(out@) =~= vistas(a) + opcional(v));
        },
        None => {
            assert(vistas(out@) =~= vistas(a) + opcional(v));
        },
    }
}

/// A date-time as the view shows it: `fecha a las hora hrs`; empty when there is none.
pub open spec fn fecha_legible(f: Seq<char>) -> Seq<char> {
    if f.len() == 0 {
        Seq::empty()
    } else {
        let p = partes(f, seq!['T']);
        une(seq![p[0], " a las "@, p[1], " hrs"@])
    }
}

fn escribir_fecha(f: &str) -> (r: String)
    requires
        fecha_separable(f@),
    ensures
        r@ == fecha_legible(f@),
{
    if f.is_empty() {
        return String::new();
    }
    let (d, t) = separar_datetime(f);
    let (ds, ts) = (d.as_str(), t.as_str());
    let r = concatenar(&[ds, " a las ", ts, " hrs"]);
    assert(seq![ds, " a las ", ts, " hrs"].map_values(|p: &str| p@) =~= seq![
        d@,
        " a las "@,
        t@,
        " hrs"@,
    ]);
    r
}


/// The view calls for the issuer (`Emisor`).
pub open spec fn comandos_emisor(e: ElementoV) -> Seq<Seq<char>> {
    seq![
        rellenar("rfcEmi"@, "RFC Emisor"@, dato(e, "Rfc"@)),
        rellenar("razonEmi"@, "Razón Social"@, dato(e, "Nombre"@)),
    ] + opcional(comando_regimen_fiscal(e))
}

fn escribir_emisor(e: &Elemento) -> (r: Vec<String>)
    ensures
        vistas(r@) == comandos_emisor(e@),
{
    let mut r: Vec<String> = Vec::new();
    r.push(mandar_datos_web_view(e, "Rfc", "rfcEmi", "RFC Emisor").0);
    r.push(mandar_datos_web_view(e, "Nombre", "razonEmi", "Razón Social").0);
    assert(vistas(r@) =~= seq![
        rellenar("rfcEmi"@, "RFC Emisor"@, dato(e@, "Rfc"@)),
        rellenar("razonEmi"@, "Razón Social"@, dato(e@, "Nombre"@)),
    ]);
    anexar_opcional(&mut r, regimen_fiscal(e), Ghost(comando_regimen_fiscal(e@)));
    r
}

/// The view calls for the receiver (`Receptor`).
pub open spec fn comandos_receptor(e: ElementoV) -> Seq<Seq<char>> {
    seq![
        rellenar("rfcRec"@, "RFC Receptor"@, dato(e, "Rfc"@)),
        rellenar("razonRec"@, "Razón Social"@, dato(e, "Nombre"@)),
    ] + opcional(comando_uso_cfdi(e))
}

fn escribir_receptor(e: &Elemento) -> (r: Vec<String>)
    ensures
        vistas(r@) == comandos_receptor(e@),
{
    let mut r: Vec<String> = Vec::new();
    r.push(mandar_datos_web_view(e, "Rfc", "rfcRec", "RFC Receptor").0);
    r.push(mandar_datos_web_view(e, "Nombre", "razonRec", "Razón Social").0);
    assert(vistas(r@) =~= seq![
        rellenar("rfcRec"@, "RFC Receptor"@, dato(e@, "Rfc"@)),
        rellenar("razonRec"@, "Razón Social"@, dato(e@, "Nombre"@)),
    ]);
    anexar_opcional(&mut r, uso_cfdi(e), Ghost(comando_uso_cfdi(e@)));
    r
}

/// The line of the `k`-th related document.
pub open spec fn lineas_relacionados(rs: Seq<ElementoV>) -> spec_fn(int) -> Seq<Seq<char>> {
    |k: int| seq![add_relacionado(decimal(k as nat), dato(rs[k], "UUID"@))]
}

/// The view calls for the related documents (`CfdiRelacionados`).
pub open spec fn comandos_relacionados(c: ElementoV) -> Seq<Seq<char>> {
    let rs = elementos(c.hijos);
    opcional(comando_tipo_relacion(c)) + aplanar(rs.len(), lineas_relacionados(rs))
}

fn escribir_relacionados(c: &Elemento) -> (r: Vec<String>)
    ensures
        vistas(r@) == comandos_relacionados(c@),
{
    let mut r: Vec<String> = Vec::new();
    anexar_opcional(&mut r, tipo_relacion(c), Ghost(comando_tipo_relacion(c@)));
    let ghost cabeza = vistas(r@);
    let rs = elementos_hijos(c);
    let ghost rsv = elementos(c@.hijos);
    let mut k: usize = 0;
    while k < rs.len()
        invariant
            vistas_elementos(rs@) == rsv,
            rsv == elementos(c@.hijos),
            0 <= k <= rs@.len(),
            vistas(r@) == cabeza + aplanar(k as nat, lineas_relacionados(rsv)),
        decreases rs@.len() - k,
    {
        assert(vistas_elementos(rs@)[k as int] == rs@[k as int]@);
        let n = numero(k as u128);
        let linea = escribir_add_relacionado(n.as_str(), get_data(rs[k], "UUID"));
        let ghost antes = vistas(r@);
        r.push(linea);
        assert(vistas(r@) =~= antes.push(linea@));
        assert(aplanar((k + 1) as nat, lineas_relacionados(rsv)) =~= aplanar(
            k as nat,
            lineas_relacionados(rsv),
        ) + seq![linea@]);
        k = k + 1;
    }
    r
}


/// `|Leyenda` when the stamp carries a legend, else nothing.
pub open spec fn leyenda(t: ElementoV) -> Seq<char> {
    let l = dato(t, "Leyenda"@);
    if l.len() == 0 {
        Seq::empty()
    } else {
        une(seq!["|"@, l])
    }
}

/// The original chain of the digital stamp (`||Version|UUID|...||`).
pub open spec fn cadena_timbre(t: ElementoV) -> Seq<char> {
    une(
        seq![
            "||"@,
            dato(t, "Version"@),
            "|"@,
            dato(t, "UUID"@),
            "|"@,
            dato(t, "FechaTimbrado"@),
            "|"@,
            dato(t, "RfcProvCertif"@),
            leyenda(t),
            "|"@,
            dato(t, "SelloCFD"@),
            "|"@,
            dato(t, "NoCertificadoSAT"@),
            "||"@,
        ],
    )
}

/// The view calls for the digital stamp (`TimbreFiscalDigital`).
pub open spec fn comandos_timbre(t: ElementoV) -> Seq<Seq<char>> {
    seq![
        rellenar("fechaTimbre"@, "Fecha de Timbrado"@, fecha_legible(dato(t, "FechaTimbrado"@))),
        rellenar("certSat"@, "Numero de Certificado SAT"@, dato(t, "NoCertificadoSAT"@)),
        rellenar_cortado("selloSat"@, "Sello Digital del SAT"@, dato(t, "SelloSAT"@)),
        rellenar_cabe("uuid"@, "Folio Fiscal UUID"@, dato(t, "UUID"@)),
        rellenar_cortado("cadenaTim"@, "Cadena Original del Timbre"@, cadena_timbre(t)),
    ]
}

fn escribir_timbre(t: &Elemento) -> (r: Vec<String>)
    requires
        fecha_separable(dato(t@, "FechaTimbrado"@)),
    ensures
        vistas(r@) == comandos_timbre(t@),
{
    let fecha_tim = get_data(t, "FechaTimbrado");
    let fecha_c = escribir_fecha(fecha_tim);
    let mut r: Vec<String> = Vec::new();
    r.push(escribir_rellenar("fechaTimbre", "Fecha de Timbrado", fecha_c.as_str()));
    r.push(mandar_datos_web_view(t, "NoCertificadoSAT", "certSat", "Numero de Certificado SAT").0);
    r.push(escribir_rellenar_cortado("selloSat", "Sello Digital del SAT", get_data(t, "SelloSAT")));
    let uuid = get_data(t, "UUID");
    r.push(escribir_rellenar_cabe("uuid", "Folio Fiscal UUID", uuid));
    let l = get_data(t, "Leyenda");
    let ley = if l.is_empty() {
        String::new()
    } else {
        let x = concatenar(&["|", l]);
        assert(seq!["|", l].map_values(|p: &str| p@) =~= seq!["|"@, l@]);
        x
    };
    assert(ley@ == leyenda(t@));
    let version = get_data(t, "Version");
    let rfc = get_data(t, "RfcProvCertif");
    let sello = get_data(t, "SelloCFD");
    let cert = get_data(t, "NoCertificadoSAT");
    let leys = ley.as_str();
    let cadena = concatenar(
        &["||", version, "|", uuid, "|", fecha_tim, "|", rfc, leys, "|", sello, "|", cert, "||"],
    );
    assert(seq!["||", version, "|", uuid, "|", fecha_tim, "|", rfc, leys, "|", sello, "|", cert, "||"].map_values(
        |p: &str| p@,
    ) =~= seq![
        "||"@,
        version@,
        "|"@,
        uuid@,
        "|"@,
        fecha_tim@,
        "|"@,
        rfc@,
        leys@,
        "|"@,
        sello@,
        "|"@,
        cert@,
        "||"@,
    ]);
    r.push(escribir_rellenar_cortado("cadenaTim", "Cadena Original del Timbre", cadena.as_str()));
    assert(vistas(r@) =~= comandos_timbre(t@));
    r
}

/// The line of the `k`-th payment.
pub open spec fn lineas_pagos(ps: Seq<ElementoV>) -> spec_fn(int) -> Seq<Seq<char>> {
    |k: int|
        seq![
            pago_cabe(
                decimal(k as nat),
                fecha_legible(dato(ps[k], "FechaPago"@)),
                texto_forma_pago(ps[k], "FormaDePagoP"@),
                dato(ps[k], "MonedaP"@),
                formato_dinero(dato(ps[k], "Monto"@)),
            ),
        ]
}

/// The view calls for the payments complement (`Pagos`).
pub open spec fn comandos_pagos(p: ElementoV) -> Seq<Seq<char>> {
    let ps = elementos(p.hijos);
    seq!["pagosCont()"@] + aplanar(ps.len(), lineas_pagos(ps))
}

/// Every payment date can be cut into date and time.
pub open spec fn pagos_mostrables(p: ElementoV) -> bool {
    forall|k: int|
        0 <= k < elementos(p.hijos).len() ==> #[trigger] fecha_separable(
            dato(elementos(p.hijos)[k], "FechaPago"@),
        )
}

fn escribir_pagos(p: &Elemento) -> (r: Vec<String>)
    requires
        pagos_mostrables(p@),
    ensures
        vistas(r@) == comandos_pagos(p@),
{
    let mut r: Vec<String> = Vec::new();
    r.push("pagosCont()".to_owned());
    let ghost cabeza = vistas(r@);
    assert(cabeza =~= seq!["pagosCont()"@]);
    let ps = elementos_hijos(p);
    let ghost psv = elementos(p@.hijos);
    let mut k: usize = 0;
    while k < ps.len()
        invariant
            vistas_elementos(ps@) == psv,
            psv == elementos(p@.hijos),
            pagos_mostrables(p@),
            0 <= k <= ps@.len(),
            vistas(r@) == cabeza + aplanar(k as nat, lineas_pagos(psv)),
        decreases ps@.len() - k,
    {
        assert(vistas_elementos(ps@)[k as int] == ps@[k as int]@);
        let pago = ps[k];
        assert(fecha_separable(dato(psv[k as int], "FechaPago"@)));
        let fecha_c = escribir_fecha(get_data(pago, "FechaPago"));
        let forma = forma_pago(pago, "FormaDePagoP");
        let monto = dinero(get_data(pago, "Monto"));
        let n = numero(k as u128);
        let linea = escribir_pago_cabe(
            n.as_str(),
            fecha_c.as_str(),
            forma.as_str(),
            get_data(pago, "MonedaP"),
            monto.as_str(),
        );
        let ghost antes = vistas(r@);
        r.push(linea);
        assert(vistas(r@) =~= antes.push(linea@));
        assert(aplanar((k + 1) as nat, lineas_pagos(psv)) =~= aplanar(k as nat, lineas_pagos(psv))
            + seq![linea@]);
        k = k + 1;
    }
    r
}

/// The view calls for an element inside the complement.
pub open spec fn comandos_en_complemento(x: ElementoV) -> Seq<Seq<char>> {
    if x.nombre == "TimbreFiscalDigital"@ {
        comandos_timbre(x)
    } else if x.nombre == "Pagos"@ {
        comandos_pagos(x)
    } else {
        Seq::empty()
    }
}

/// The dates that an element inside the complement shows can be cut.
pub open spec fn mostrable_en_complemento(x: ElementoV) -> bool {
    &&& x.nombre == "TimbreFiscalDigital"@ ==> fecha_separable(dato(x, "FechaTimbrado"@))
    &&& x.nombre == "Pagos"@ ==> pagos_mostrables(x)
}

/// The calls of the `i`-th element inside the complement.
pub open spec fn lineas_complemento(cs: Seq<ElementoV>) -> spec_fn(int) -> Seq<Seq<char>> {
    |i: int| comandos_en_complemento(cs[i])
}

/// The view calls for the complement (`Complemento`).
pub open spec fn comandos_complemento(c: ElementoV) -> Seq<Seq<char>> {
    let cs = elementos(c.hijos);
    aplanar(cs.len(), lineas_complemento(cs))
}

/// Every element of the complement can be shown.
pub open spec fn complemento_mostrable(c: ElementoV) -> bool {
    forall|i: int|
        0 <= i < elementos(c.hijos).len() ==> #[trigger] mostrable_en_complemento(
            elementos(c.hijos)[i],
        )
}

fn escribir_complemento(c: &Elemento) -> (r: Vec<String>)
    requires
        complemento_mostrable(c@),
    ensures
        vistas(r@) == comandos_complemento(c@),
{
    let mut r: Vec<String> = Vec::new();
    let cs = elementos_hijos(c);
    let ghost csv = elementos(c@.hijos);
    let mut i: usize = 0;
    while i < cs.len()
        invariant
            vistas_elementos(cs@) == csv,
            csv == elementos(c@.hijos),
            complemento_mostrable(c@),
            0 <= i <= cs@.len(),
            vistas(r@) == aplanar(i as nat, lineas_complemento(csv)),
        decreases cs@.len() - i,
    {
        assert(vistas_elementos(cs@)[i as int] == cs@[i as int]@);
        let x = cs[i];
        assert(mostrable_en_complemento(csv[i as int]));
        let parte = if iguales(x.nombre.as_str(), "TimbreFiscalDigital") {
            escribir_timbre(x)
        } else if iguales(x.nombre.as_str(), "Pagos") {
            escribir_pagos(x)
        } else {
            Vec::new()
        };
        assert(vistas(parte@) =~= comandos_en_complemento(x@));
        let ghost antes = vistas(r@);
        let ghost pv = vistas(parte@);
        anexar(&mut r, parte);
        assert(aplanar((i + 1) as nat, lineas_complemento(csv)) =~= antes + pv);
        i = i + 1;
    }
    r
}


/// The concept number, if the taxes belong to a concept.
pub open spec fn como_nat(o: Option<usize>) -> Option<nat> {
    match o {
        Some(j) => Some(j as nat),
        None => None,
    }
}

/// How many tax lines the first `g` groups hold.
pub open spec fn lineas_antes(grupos: Seq<ElementoV>, g: int) -> nat
    decreases g,
{
    if g <= 0 {
        0
    } else {
        lineas_antes(grupos, g - 1) + elementos(grupos[g - 1].hijos).len()
    }
}

/// The `n`-th tax line `tr` of the group `grupo` (transfers or withholdings):
/// a line of concept `j` when `concepto` is `Some(j)`, else a line of the
/// document's tax summary.
pub open spec fn linea_impuesto(concepto: Option<nat>, n: nat, grupo: ElementoV, tr: ElementoV) -> Seq<
    char,
> {
    match concepto {
        Some(j) => add_tras_ret_concep(
            decimal(j),
            decimal(n),
            grupo.nombre,
            formato_dinero(dato(tr, "Importe"@)),
            dato(tr, "TasaOCuota"@),
            dato(tr, "TipoFactor"@),
            impuesto_completo(dato(tr, "Impuesto"@)),
            formato_dinero(dato(tr, "Base"@)),
        ),
        None => add_tras_ret_imp(
            decimal(n),
            tr.nombre,
            impuesto_completo(dato(tr, "Impuesto"@)),
            dato(tr, "TipoFactor"@),
            dato(tr, "TasaOCuota"@),
            formato_dinero(dato(tr, "Importe"@)),
        ),
    }
}

/// The lines of group `g`, numbered after those of the groups before it.
pub open spec fn lineas_grupo(concepto: Option<nat>, grupos: Seq<ElementoV>, g: int) -> spec_fn(
    int,
) -> Seq<Seq<char>> {
    |t: int|
        seq![
            linea_impuesto(
                concepto,
                (lineas_antes(grupos, g) + t) as nat,
                grupos[g],
                elementos(grupos[g].hijos)[t],
            ),
        ]
}

/// The lines of each group.
pub open spec fn lineas_grupos(concepto: Option<nat>, grupos: Seq<ElementoV>) -> spec_fn(int) -> Seq<
    Seq<char>,
> {
    |g: int| aplanar(elementos(grupos[g].hijos).len(), lineas_grupo(concepto, grupos, g))
}

/// All tax lines of the groups, numbered from zero across the groups.
pub open spec fn comandos_lineas_impuestos(concepto: Option<nat>, grupos: Seq<ElementoV>) -> Seq<
    Seq<char>,
> {
    aplanar(grupos.len(), lineas_grupos(concepto, grupos))
}

proof fn lema_largo_grupo(c: Option<nat>, grupos: Seq<ElementoV>, g: int, m: nat)
    ensures
        aplanar(m, lineas_grupo(c, grupos, g)).len() == m,
    decreases m,
{
    if m > 0 {
        lema_largo_grupo(c, grupos, g, (m - 1) as nat);
    }
}

proof fn lema_largo_grupos(c: Option<nat>, grupos: Seq<ElementoV>, g: nat)
    requires
        g <= grupos.len(),
    ensures
        aplanar(g, lineas_grupos(c, grupos)).len() == lineas_antes(grupos, g as int),
    decreases g,
{
    if g > 0 {
        lema_largo_grupos(c, grupos, (g - 1) as nat);
        lema_largo_grupo(c, grupos, g - 1, elementos(grupos[g - 1].hijos).len());
    }
}

/// Tax lines are numbered by their place: the line numbered `n` is the
/// `n`-th of all the lines, counting across the groups from zero, and there
/// are as many lines as tax elements in the groups.
pub proof fn ley_numeracion_impuestos(c: Option<nat>, grupos: Seq<ElementoV>, g: int, t: int)
    requires
        0 <= g < grupos.len(),
        0 <= t < elementos(grupos[g].hijos).len(),
    ensures
        comandos_lineas_impuestos(c, grupos).len() == lineas_antes(grupos, grupos.len() as int),
        comandos_lineas_impuestos(c, grupos)[lineas_antes(grupos, g) + t] == linea_impuesto(
            c,
            (lineas_antes(grupos, g) + t) as nat,
            grupos[g],
            elementos(grupos[g].hijos)[t],
        ),
{
    let n = elementos(grupos[g].hijos).len();
    lema_largo_grupos(c, grupos, grupos.len());
    lema_largo_grupos(c, grupos, g as nat);
    lema_largo_grupo(c, grupos, g, t as nat);
    lema_aplanar_indice(n, lineas_grupo(c, grupos, g), t, 0);
    lema_aplanar_indice(
        grupos.len(),
        lineas_grupos(c, grupos),
        g,
        aplanar(t as nat, lineas_grupo(c, grupos, g)).len() as int,
    );
}

fn escribir_lineas_impuestos(
    grupos: &Vec<&Elemento>,
    concepto: Option<usize>,
    Ghost(gv): Ghost<Seq<ElementoV>>,
) -> (r: Vec<String>)
    requires
        vistas_elementos(grupos@) == gv,
    ensures
        vistas(r@) == comandos_lineas_impuestos(como_nat(concepto), gv),
{
    let ghost c = como_nat(concepto);
    let mut r: Vec<String> = Vec::new();
    let mut id: u128 = 0;
    let mut g: usize = 0;
    while g < grupos.len()
        invariant
            vistas_elementos(grupos@) == gv,
            c == como_nat(concepto),
            0 <= g <= grupos@.len(),
            id == lineas_antes(gv, g as int),
            lineas_antes(gv, g as int) <= g * 0x1_0000_0000_0000_0000,
            vistas(r@) == aplanar(g as nat, lineas_grupos(c, gv)),
        decreases grupos@.len() - g,
    {
        assert(vistas_elementos(grupos@)[g as int] == grupos@[g as int]@);
        let grupo = grupos[g];
        let trs = elementos_hijos(grupo);
        let ghost trv = elementos(gv[g as int].hijos);
        let ghost antes = vistas(r@);
        let mut t: usize = 0;
        while t < trs.len()
            invariant
                vistas_elementos(grupos@) == gv,
                c == como_nat(concepto),
                g < grupos@.len(),
                grupo@ == gv[g as int],
                vistas_elementos(trs@) == trv,
                trv == elementos(gv[g as int].hijos),
                0 <= t <= trs@.len(),
                lineas_antes(gv, g as int) <= g * 0x1_0000_0000_0000_0000,
                id == lineas_antes(gv, g as int) + t,
                vistas(r@) == antes + aplanar(t as nat, lineas_grupo(c, gv, g as int)),
            decreases trs@.len() - t,
        {
            assert(vistas_elementos(trs@)[t as int] == trs@[t as int]@);
            let tr = trs[t];
            let n = numero(id);
            let imp = completar_impuesto(get_data(tr, "Impuesto"));
            let linea = match concepto {
                Some(j) => {
                    let nj = numero(j as u128);
                    let importe = dinero(get_data(tr, "Importe"));
                    let base = dinero(get_data(tr, "Base"));
                    escribir_add_tras_ret_concep(
                        nj.as_str(),
                        n.as_str(),
                        grupo.nombre.as_str(),
                        importe.as_str(),
                        get_data(tr, "TasaOCuota"),
                        get_data(tr, "TipoFactor"),
                        imp.as_str(),
                        base.as_str(),
                    )
                },
                None => {
                    let importe = dinero(get_data(tr, "Importe"));
                    escribir_add_tras_ret_imp(
                        n.as_str(),
                        tr.nombre.as_str(),
                        imp.as_str(),
                        get_data(tr, "TipoFactor"),
                        get_data(tr, "TasaOCuota"),
                        importe.as_str(),
                    )
                },
            };
            assert(linea@ == linea_impuesto(c, id as nat, gv[g as int], trv[t as int]));
            let ghost previo = vistas(r@);
            r.push(linea);
            assert(vistas(r@) =~= previo.push(linea@));
            assert(aplanar((t + 1) as nat, lineas_grupo(c, gv, g as int)) =~= aplanar(
                t as nat,
                lineas_grupo(c, gv, g as int),
            ) + seq![linea@]);
            id = id + 1;
            t = t + 1;
        }
        assert(aplanar((g + 1) as nat, lineas_grupos(c, gv)) =~= aplanar(g as nat, lineas_grupos(c, gv))
            + aplanar(trv.len(), lineas_grupo(c, gv, g as int)));
        g = g + 1;
    }
    r
}


/// The view calls for the document's tax summary (`Impuestos`).
pub open spec fn comandos_impuestos(c: ElementoV) -> Seq<Seq<char>> {
    seq!["impuestosCabe()"@] + comandos_lineas_impuestos(None, elementos(c.hijos))
}

fn escribir_impuestos(c: &Elemento) -> (r: Vec<String>)
    ensures
        vistas(r@) == comandos_impuestos(c@),
{
    let mut r: Vec<String> = Vec::new();
    r.push("impuestosCabe()".to_owned());
    assert(vistas(r@) =~= seq!["impuestosCabe()"@]);
    let grupos = elementos_hijos(c);
    let lineas = escribir_lineas_impuestos(&grupos, None, Ghost(elementos(c@.hijos)));
    anexar(&mut r, lineas);
    r
}

/// The line of the `j`-th concept in the concepts table.
pub open spec fn comando_concepto(j: nat, c: ElementoV) -> Seq<char> {
    add_concep(
        decimal(j),
        dato(c, "Cantidad"@),
        dato(c, "ClaveUnidad"@),
        dato(c, "Unidad"@),
        dato(c, "ClaveProdServ"@),
        dato(c, "NoIdentificacion"@),
        formato_dinero(dato(c, "ValorUnitario"@)),
        dato(c, "Descripcion"@),
        formato_dinero(dato(c, "Importe"@)),
        formato_dinero(dato(c, "Descuento"@)),
    )
}

/// The calls for one `Impuestos` element of the `j`-th concept.
pub open spec fn comandos_impuestos_concepto(j: nat, imp: ElementoV) -> Seq<Seq<char>> {
    seq![tras_ret_concep_cabe(decimal(j))] + comandos_lineas_impuestos(Some(j), elementos(imp.hijos))
}

/// The calls for the `m`-th element inside the `j`-th concept.
pub open spec fn lineas_dentro_concepto(j: nat, ks: Seq<ElementoV>) -> spec_fn(int) -> Seq<Seq<char>> {
    |m: int|
        if ks[m].nombre == "Impuestos"@ {
            comandos_impuestos_concepto(j, ks[m])
        } else {
            Seq::empty()
        }
}

/// The calls for the `j`-th concept and its taxes.
pub open spec fn comandos_concepto(j: nat, c: ElementoV) -> Seq<Seq<char>> {
    let ks = elementos(c.hijos);
    seq![comando_concepto(j, c)] + aplanar(ks.len(), lineas_dentro_concepto(j, ks))
}

fn escribir_concepto(j: usize, c: &Elemento) -> (r: Vec<String>)
    ensures
        vistas(r@) == comandos_concepto(j as nat, c@),
{
    let n = numero(j as u128);
    let valor = dinero(get_data(c, "ValorUnitario"));
    let importe = dinero(get_data(c, "Importe"));
    let descuento = dinero(get_data(c, "Descuento"));
    let linea = escribir_add_concep(
        n.as_str(),
        get_data(c, "Cantidad"),
        get_data(c, "ClaveUnidad"),
        get_data(c, "Unidad"),
        get_data(c, "ClaveProdServ"),
        get_data(c, "NoIdentificacion"),
        valor.as_str(),
        get_data(c, "Descripcion"),
        importe.as_str(),
        descuento.as_str(),
    );
    let mut r: Vec<String> = Vec::new();
    r.push(linea);
    let ghost cabeza = vistas(r@);
    assert(cabeza =~= seq![comando_concepto(j as nat, c@)]);
    let ks = elementos_hijos(c);
    let ghost ksv = elementos(c@.hijos);
    let mut m: usize = 0;
    while m < ks.len()
        invariant
            vistas_elementos(ks@) == ksv,
            ksv == elementos(c@.hijos),
            n@ == decimal(j as nat),
            0 <= m <= ks@.len(),
            vistas(r@) == cabeza + aplanar(m as nat, lineas_dentro_concepto(j as nat, ksv)),
        decreases ks@.len() - m,
    {
        assert(vistas_elementos(ks@)[m as int] == ks@[m as int]@);
        let k = ks[m];
        let ghost antes = vistas(r@);
        if iguales(k.nombre.as_str(), "Impuestos") {
            let cabe = escribir_tras_ret_concep_cabe(n.as_str());
            let ghost cv = cabe@;
            r.push(cabe);
            assert(vistas(r@) =~= antes + seq![cv]);
            let grupos = elementos_hijos(k);
            let lineas = escribir_lineas_impuestos(&grupos, Some(j), Ghost(elementos(k@.hijos)));
            let ghost lv = vistas(lineas@);
            anexar(&mut r, lineas);
            assert(k@ == ksv[m as int]);
            assert(vistas(r@) =~= antes + (seq![cv] + lv));
            assert(como_nat(Some(j)) == Some(j as nat));
        }
        assert(vistas(r@) =~= antes + lineas_dentro_concepto(j as nat, ksv)(m as int));
        assert(aplanar((m + 1) as nat, lineas_dentro_concepto(j as nat, ksv)) =~= aplanar(
            m as nat,
            lineas_dentro_concepto(j as nat, ksv),
        ) + lineas_dentro_concepto(j as nat, ksv)(m as int));
        m = m + 1;
    }
    r
}

/// The calls for each concept.
pub open spec fn lineas_conceptos(cs: Seq<ElementoV>) -> spec_fn(int) -> Seq<Seq<char>> {
    |j: int| comandos_concepto(j as nat, cs[j])
}

/// The view calls for the concepts (`Conceptos`).
pub open spec fn comandos_conceptos(c: ElementoV) -> Seq<Seq<char>> {
    let cs = elementos(c.hijos);
    seq!["showConcep(true)"@] + aplanar(cs.len(), lineas_conceptos(cs))
}

/// In the concepts table, the line of the `j`-th concept comes right after
/// the calls of the concepts before it, and carries the concept's number,
/// quantity, unit key, unit, product key and identification, its unit value
/// in money format, its description, its amount in money format and its
/// discount in money format, in that order.
pub proof fn ley_linea_concepto(c: ElementoV, j: int)
    requires
        0 <= j < elementos(c.hijos).len(),
    ensures
        ({
            let cs = elementos(c.hijos);
            let k = cs[j];
            let pos: int = 1 + aplanar(j as nat, lineas_conceptos(cs)).len() as int;
            &&& pos < comandos_conceptos(c).len()
            &&& comandos_conceptos(c)[pos] == une(
                seq![
                    "addConcep(`"@,
                    decimal(j as nat),
                    "`, `"@,
                    dato(k, "Cantidad"@),
                    "`, `"@,
                    dato(k, "ClaveUnidad"@),
                    "`, `"@,
                    dato(k, "Unidad"@),
                    "`, `"@,
                    dato(k, "ClaveProdServ"@),
                    "`, `"@,
                    dato(k, "NoIdentificacion"@),
                    "`, `"@,
                    formato_dinero(dato(k, "ValorUnitario"@)),
                    "`, `"@,
                    dato(k, "Descripcion"@),
                    "`, `"@,
                    formato_dinero(dato(k, "Importe"@)),
                    "`, `- "@,
                    formato_dinero(dato(k, "Descuento"@)),
                    "`)"@,
                ],
            )
        }),
{
    let cs = elementos(c.hijos);
    lema_aplanar_indice(cs.len(), lineas_conceptos(cs), j, 0);
    let a = aplanar(cs.len(), lineas_conceptos(cs));
    let pos: int = 1 + aplanar(j as nat, lineas_conceptos(cs)).len() as int;
    assert(comandos_conceptos(c) == seq!["showConcep(true)"@] + a);
    assert(comandos_conceptos(c)[pos] == a[pos - 1]);
}

fn escribir_conceptos(c: &Elemento) -> (r: Vec<String>)
    ensures
        vistas(r@) == comandos_conceptos(c@),
{
    let mut r: Vec<String> = Vec::new();
    r.push("showConcep(true)".to_owned());
    let ghost cabeza = vistas(r@);
    assert(cabeza =~= seq!["showConcep(true)"@]);
    let cs = elementos_hijos(c);
    let ghost csv = elementos(c@.hijos);
    let mut j: usize = 0;
    while j < cs.len()
        invariant
            vistas_elementos(cs@) == csv,
            csv == elementos(c@.hijos),
            0 <= j <= cs@.len(),
            vistas(r@) == cabeza + aplanar(j as nat, lineas_conceptos(csv)),
        decreases cs@.len() - j,
    {
        assert(vistas_elementos(cs@)[j as int] == cs@[j as int]@);
        let ghost antes = vistas(r@);
        let parte = escribir_concepto(j, cs[j]);
        let ghost pv = vistas(parte@);
        anexar(&mut r, parte);
        assert(aplanar((j + 1) as nat, lineas_conceptos(csv)) =~= aplanar(j as nat, lineas_conceptos(csv))
            + pv);
        j = j + 1;
    }
    r
}


/// The view calls for a child element of the document.
pub open spec fn comandos_hijo(c: ElementoV) -> Seq<Seq<char>> {
    if c.nombre == "Emisor"@ {
        comandos_emisor(c)
    } else if c.nombre == "Receptor"@ {
        comandos_receptor(c)
    } else if c.nombre == "Conceptos"@ {
        comandos_conceptos(c)
    } else if c.nombre == "Impuestos"@ {
        comandos_impuestos(c)
    } else if c.nombre == "Complemento"@ {
        comandos_complemento(c)
    } else if c.nombre == "CfdiRelacionados"@ {
        comandos_relacionados(c)
    } else {
        Seq::empty()
    }
}

/// The dates a child element of the document shows can be cut.
pub open spec fn hijo_mostrable(c: ElementoV) -> bool {
    c.nombre == "Complemento"@ ==> complemento_mostrable(c)
}

fn escribir_hijo(c: &Elemento) -> (r: Vec<String>)
    requires
        hijo_mostrable(c@),
    ensures
        vistas(r@) == comandos_hijo(c@),
{
    let nombre = c.nombre.as_str();
    if iguales(nombre, "Emisor") {
        escribir_emisor(c)
    } else if iguales(nombre, "Receptor") {
        escribir_receptor(c)
    } else if iguales(nombre, "Conceptos") {
        escribir_conceptos(c)
    } else if iguales(nombre, "Impuestos") {
        escribir_impuestos(c)
    } else if iguales(nombre, "Complemento") {
        escribir_complemento(c)
    } else if iguales(nombre, "CfdiRelacionados") {
        escribir_relacionados(c)
    } else {
        let r: Vec<String> = Vec::new();
        assert(vistas(r@) =~= Seq::empty());
        r
    }
}

/// The calls for each child element.
pub open spec fn lineas_hijos(hs: Seq<ElementoV>) -> spec_fn(int) -> Seq<Seq<char>> {
    |i: int| comandos_hijo(hs[i])
}

/// Attribute `k` of the last element named `nombre`, if there is one.
pub open spec fn ultimo(s: Seq<ElementoV>, nombre: Seq<char>, k: Seq<char>) -> Option<Seq<char>>
    decreases s.len(),
{
    if s.len() == 0 {
        None
    } else if s.last().nombre == nombre {
        Some(dato(s.last(), k))
    } else {
        ultimo(s.drop_last(), nombre, k)
    }
}

/// The UUID of the last digital stamp inside the last complement that has one.
pub open spec fn uuid_en(s: Seq<ElementoV>) -> Option<Seq<char>>
    decreases s.len(),
{
    if s.len() == 0 {
        None
    } else if s.last().nombre == "Complemento"@ && ultimo(
        elementos(s.last().hijos),
        "TimbreFiscalDigital"@,
        "UUID"@,
    ) is Some {
        ultimo(elementos(s.last().hijos), "TimbreFiscalDigital"@, "UUID"@)
    } else {
        uuid_en(s.drop_last())
    }
}

/// The text in `o`, or the empty text.
pub open spec fn o_vacio(o: Option<Seq<char>>) -> Seq<char> {
    match o {
        Some(x) => x,
        None => Seq::empty(),
    }
}

/// The issuer's RFC: that of the last `Emisor`, or empty.
pub open spec fn rfc_emisor(e: ElementoV) -> Seq<char> {
    o_vacio(ultimo(elementos(e.hijos), "Emisor"@, "Rfc"@))
}

/// The receiver's RFC: that of the last `Receptor`, or empty.
pub open spec fn rfc_receptor(e: ElementoV) -> Seq<char> {
    o_vacio(ultimo(elementos(e.hijos), "Receptor"@, "Rfc"@))
}

/// The fiscal folio (UUID) of the document's digital stamp, or empty.
pub open spec fn uuid_cfdi(e: ElementoV) -> Seq<char> {
    o_vacio(uuid_en(elementos(e.hijos)))
}

/// Attribute `k` of the last element of `s` named `nombre`.
fn ultimo_dato<'a>(s: &Vec<&'a Elemento>, nombre: &str, k: &str) -> (r: Option<&'a str>)
    ensures
        r matches Some(x) ==> ultimo(vistas_elementos(s@), nombre@, k@) == Some(x@),
        r is None ==> ultimo(vistas_elementos(s@), nombre@, k@) is None,
{
    let ghost sv = vistas_elementos(s@);
    let mut r: Option<&'a str> = None;
    let mut i: usize = 0;
    while i < s.len()
        invariant
            sv == vistas_elementos(s@),
            0 <= i <= s@.len(),
            r matches Some(x) ==> ultimo(sv.take(i as int), nombre@, k@) == Some(x@),
            r is None ==> ultimo(sv.take(i as int), nombre@, k@) is None,
        decreases s@.len() - i,
    {
        assert(sv[i as int] == s@[i as int]@);
        assert(sv.take(i + 1).drop_last() =~= sv.take(i as int));
        if iguales(s[i].nombre.as_str(), nombre) {
            r = Some(get_data(s[i], k));
        }
        i = i + 1;
    }
    assert(sv.take(s@.len() as int) =~= sv);
    r
}

/// The view calls for the document header and its totals.
pub open spec fn comandos_cabecera(e: ElementoV, neto: Seq<char>, pesos: Seq<char>) -> Seq<
    Seq<char>,
> {
    let descuento = dato(e, "Descuento"@);
    let tipo_cambio = dato(e, "TipoCambio"@);
    seq![
        rellenar_cabe("serie"@, "Serie"@, dato(e, "Serie"@)),
        rellenar_cabe("folio"@, "Folio"@, dato(e, "Folio"@)),
        rellenar_cabe("fecha"@, "Fecha"@, fecha_legible(dato(e, "Fecha"@))),
    ] + opcional(comando_tipo_cfdi(e)) + seq![
        rellenar_cabe("lugarExp"@, "C.P. Expedición"@, dato(e, "LugarExpedicion"@)),
        rellenar("versionCfdi"@, "Versión CFDI"@, dato(e, "Version"@)),
        rellenar("metodoPago"@, "Metodo de Pago"@, texto_metodo_pago(e, "MetodoPago"@)),
        rellenar("formaPago"@, "Forma de Pago"@, texto_forma_pago(e, "FormaPago"@)),
        rellenar("subtotal"@, "Subtotal"@, formato_dinero(dato(e, "SubTotal"@))),
    ] + (if descuento.len() > 0 {
        seq![
            rellenar("descuento"@, "Descuento"@, une(seq!["- "@, formato_dinero(descuento)])),
            rellenar("subNeto"@, "Subtotal Neto"@, formato_dinero(neto)),
        ]
    } else {
        Seq::empty()
    }) + seq![
        rellenar("total"@, "Total"@, formato_dinero(dato(e, "Total"@))),
        rellenar("condicionesPago"@, "Condiciones de Pago"@, dato(e, "CondicionesDePago"@)),
        rellenar("moneda"@, "Moneda"@, dato(e, "Moneda"@)),
        rellenar("certEmi"@, "Numero de Certificado Emisór"@, dato(e, "NoCertificado"@)),
    ] + (if tipo_cambio != "1"@ && tipo_cambio.len() > 0 {
        seq![
            rellenar("tipoCambio"@, "Tipo de Cambio"@, formato_dinero(tipo_cambio)),
            rellenar("totalPesos"@, "Total en Pesos"@, formato_dinero(pesos)),
        ]
    } else {
        Seq::empty()
    })
}

fn escribir_cabecera(cfdi: &Elemento, subtotal_neto: &str, total_pesos: &str) -> (r: Vec<String>)
    requires
        fecha_separable(dato(cfdi@, "Fecha"@)),
    ensures
        vistas(r@) == comandos_cabecera(cfdi@, subtotal_neto@, total_pesos@),
{
    let ghost e = cfdi@;
    let mut r: Vec<String> = Vec::new();
    r.push(mandar_datos_web_view_cabe(cfdi, "Serie", "serie", "Serie").0);
    r.push(mandar_datos_web_view_cabe(cfdi, "Folio", "folio", "Folio").0);
    let fecha_c = escribir_fecha(get_data(cfdi, "Fecha"));
    r.push(escribir_rellenar_cabe("fecha", "Fecha", fecha_c.as_str()));
    let ghost a = vistas(r@);
    anexar_opcional(&mut r, tipo_cfdi(cfdi), Ghost(comando_tipo_cfdi(e)));
    let ghost b = vistas(r@);
    r.push(mandar_datos_web_view_cabe(cfdi, "LugarExpedicion", "lugarExp", "C.P. Expedición").0);
    r.push(mandar_datos_web_view(cfdi, "Version", "versionCfdi", "Versión CFDI").0);
    let metodo = metodo_pago(cfdi, "MetodoPago");
    r.push(escribir_rellenar("metodoPago", "Metodo de Pago", metodo.as_str()));
    let forma = forma_pago(cfdi, "FormaPago");
    r.push(escribir_rellenar("formaPago", "Forma de Pago", forma.as_str()));
    let subtotal = dinero(get_data(cfdi, "SubTotal"));
    r.push(escribir_rellenar("subtotal", "Subtotal", subtotal.as_str()));
    let ghost c = vistas(r@);
    let descuento = get_data(cfdi, "Descuento");
    if !descuento.is_empty() {
        let d = dinero(descuento);
        let ds = d.as_str();
        let menos = concatenar(&["- ", ds]);
        assert(seq!["- ", ds].map_values(|p: &str| p@) =~= seq!["- "@, ds@]);
        r.push(escribir_rellenar("descuento", "Descuento", menos.as_str()));
        let neto = dinero(subtotal_neto);
        r.push(escribir_rellenar("subNeto", "Subtotal Neto", neto.as_str()));
    }
    let ghost d = vistas(r@);
    let total = dinero(get_data(cfdi, "Total"));
    r.push(escribir_rellenar("total", "Total", total.as_str()));
    r.push(mandar_datos_web_view(cfdi, "CondicionesDePago", "condicionesPago", "Condiciones de Pago").0);
    r.push(mandar_datos_web_view(cfdi, "Moneda", "moneda", "Moneda").0);
    r.push(mandar_datos_web_view(cfdi, "NoCertificado", "certEmi", "Numero de Certificado Emisór").0);
    let ghost f = vistas(r@);
    let tipo_cambio = get_data(cfdi, "TipoCambio");
    if !iguales(tipo_cambio, "1") && !tipo_cambio.is_empty() {
        let tc = dinero(tipo_cambio);
        r.push(escribir_rellenar("tipoCambio", "Tipo de Cambio", tc.as_str()));
        let pesos = dinero(total_pesos);
        r.push(escribir_rellenar("totalPesos", "Total en Pesos", pesos.as_str()));
    }
    assert(a =~= seq![
        rellenar_cabe("serie"@, "Serie"@, dato(e, "Serie"@)),
        rellenar_cabe("folio"@, "Folio"@, dato(e, "Folio"@)),
        rellenar_cabe("fecha"@, "Fecha"@, fecha_legible(dato(e, "Fecha"@))),
    ]);
    assert(c =~= b + seq![
        rellenar_cabe("lugarExp"@, "C.P. Expedición"@, dato(e, "LugarExpedicion"@)),
        rellenar("versionCfdi"@, "Versión CFDI"@, dato(e, "Version"@)),
        rellenar("metodoPago"@, "Metodo de Pago"@, texto_metodo_pago(e, "MetodoPago"@)),
        rellenar("formaPago"@, "Forma de Pago"@, texto_forma_pago(e, "FormaPago"@)),
        rellenar("subtotal"@, "Subtotal"@, formato_dinero(dato(e, "SubTotal"@))),
    ]);
    assert(vistas(r@) =~= comandos_cabecera(e, subtotal_neto@, total_pesos@));
    r
}


/// Every date the view cuts at its `T` has one, and the seal has eight
/// final bytes that start a character: the inputs on which showing the
/// document does not stop.
pub open spec fn cfdi_mostrable(e: ElementoV) -> bool {
    &&& fecha_separable(dato(e, "Fecha"@))
    &&& sello_recortable(dato(e, "Sello"@))
    &&& forall|i: int|
        0 <= i < elementos(e.hijos).len() ==> #[trigger] hijo_mostrable(elementos(e.hijos)[i])
}

/// Every view call that shows the document, in order: the header, the
/// calls of each child element, the issuer's seal and the QR code.
pub open spec fn comandos_cfdi(e: ElementoV, neto: Seq<char>, pesos: Seq<char>) -> Seq<Seq<char>> {
    let hs = elementos(e.hijos);
    let sello = dato(e, "Sello"@);
    comandos_cabecera(e, neto, pesos) + aplanar(hs.len(), lineas_hijos(hs)) + seq![
        rellenar_cortado("selloEmi"@, "Sello Digital del CFDI"@, sello),
        poner_qr(uuid_cfdi(e), rfc_emisor(e), rfc_receptor(e), dato(e, "Total"@), cola_sello(sello)),
    ]
}

/// The view calls that show the document `cfdi`, and the data the SAT
/// checks it by: issuer's RFC, receiver's RFC, total and fiscal folio.
/// `subtotal_neto` and `total_pesos` are the subtotal less the discount and
/// the total times the exchange rate, written as numbers; they are shown
/// only when the document has a discount, or an exchange rate other than 1.
pub fn datos_cfdi(cfdi: &Elemento, subtotal_neto: &str, total_pesos: &str) -> (r: (
    Vec<String>,
    (String, String, String, String),
))
    requires
        cfdi_mostrable(cfdi@),
    ensures
        vistas(r.0@) == comandos_cfdi(cfdi@, subtotal_neto@, total_pesos@),
        r.1.0@ == rfc_emisor(cfdi@),
        r.1.1@ == rfc_receptor(cfdi@),
        r.1.2@ == dato(cfdi@, "Total"@),
        r.1.3@ == uuid_cfdi(cfdi@),
{
    proof {
        reveal_strlit("");
    }
    let mut r = escribir_cabecera(cfdi, subtotal_neto, total_pesos);
    let ghost cabeza = vistas(r@);
    let hs = elementos_hijos(cfdi);
    let ghost hsv = elementos(cfdi@.hijos);
    let mut rfc_emi: &str = "";
    let mut rfc_rec: &str = "";
    let mut uuid: &str = "";
    let mut i: usize = 0;
    assert(hsv.take(0) =~= Seq::<ElementoV>::empty());
    while i < hs.len()
        invariant
            vistas_elementos(hs@) == hsv,
            hsv == elementos(cfdi@.hijos),
            cfdi_mostrable(cfdi@),
            0 <= i <= hs@.len(),
            vistas(r@) == cabeza + aplanar(i as nat, lineas_hijos(hsv)),
            rfc_emi@ == o_vacio(ultimo(hsv.take(i as int), "Emisor"@, "Rfc"@)),
            rfc_rec@ == o_vacio(ultimo(hsv.take(i as int), "Receptor"@, "Rfc"@)),
            uuid@ == o_vacio(uuid_en(hsv.take(i as int))),
        decreases hs@.len() - i,
    {
        assert(vistas_elementos(hs@)[i as int] == hs@[i as int]@);
        assert(hsv.take(i + 1).drop_last() =~= hsv.take(i as int));
        assert(hsv.take(i + 1).last() == hsv[i as int]);
        let h = hs[i];
        let nombre = h.nombre.as_str();
        proof {
            reveal_strlit("Emisor");
            reveal_strlit("Receptor");
            reveal_strlit("Complemento");
            assert("Emisor"@.len() == 6 && "Receptor"@.len() == 8 && "Complemento"@.len() == 11);
        }
        if iguales(nombre, "Emisor") {
            rfc_emi = get_data(h, "Rfc");
        } else if iguales(nombre, "Receptor") {
            rfc_rec = get_data(h, "Rfc");
        } else if iguales(nombre, "Complemento") {
            let ts = elementos_hijos(h);
            match ultimo_dato(&ts, "TimbreFiscalDigital", "UUID") {
                Some(u) => {
                    uuid = u;
                },
                None => {},
            }
        }
        assert(hijo_mostrable(hsv[i as int]));
        let ghost antes = vistas(r@);
        let parte = escribir_hijo(h);
        let ghost pv = vistas(parte@);
        anexar(&mut r, parte);
        assert(aplanar((i + 1) as nat, lineas_hijos(hsv)) =~= aplanar(i as nat, lineas_hijos(hsv)) + pv);
        i = i + 1;
    }
    assert(hsv.take(hs@.len() as int) =~= hsv);
    let sello = get_data(cfdi, "Sello");
    let ghost antes = vistas(r@);
    let c1 = escribir_rellenar_cortado("selloEmi", "Sello Digital del CFDI", sello);
    let total = get_data(cfdi, "Total");
    let cola = ultimos_ocho(sello);
    let c2 = escribir_poner_qr(uuid, rfc_emi, rfc_rec, total, cola);
    let ghost (v1, v2) = (c1@, c2@);
    r.push(c1);
    r.push(c2);
    assert(vistas(r@) =~= antes + seq![v1, v2]);
    (r, (rfc_emi.to_owned(), rfc_rec.to_owned(), total.to_owned(), uuid.to_owned()))
}

/// A document can be shown exactly when its date and those of its digital
/// stamps and payments can be cut at their `T` and its seal has eight final
/// bytes that start a character: no other element, inside the complement or
/// out of it, keeps it from being shown.
pub proof fn ley_se_puede_mostrar(e: ElementoV)
    ensures
        cfdi_mostrable(e) <==> ({
            let hs = elementos(e.hijos);
            &&& fecha_separable(dato(e, "Fecha"@))
            &&& sello_recortable(dato(e, "Sello"@))
            &&& forall|i: int, k: int|
                0 <= i < hs.len() && hs[i].nombre == "Complemento"@ && 0 <= k < elementos(
                    hs[i].hijos,
                ).len() ==> {
                    let x = #[trigger] elementos(hs[i].hijos)[k];
                    &&& x.nombre == "TimbreFiscalDigital"@ ==> fecha_separable(dato(x, "FechaTimbrado"@))
                    &&& x.nombre == "Pagos"@ ==> forall|p: int|
                        0 <= p < elementos(x.hijos).len() ==> fecha_separable(
                            dato(#[trigger] elementos(x.hijos)[p], "FechaPago"@),
                        )
                }
        }),
{
    let hs = elementos(e.hijos);
    if cfdi_mostrable(e) {
        assert forall|i: int, k: int|
            0 <= i < hs.len() && hs[i].nombre == "Complemento"@ && 0 <= k < elementos(
                hs[i].hijos,
            ).len() implies {
            let x = #[trigger] elementos(hs[i].hijos)[k];
            &&& x.nombre == "TimbreFiscalDigital"@ ==> fecha_separable(dato(x, "FechaTimbrado"@))
            &&& x.nombre == "Pagos"@ ==> forall|p: int|
                0 <= p < elementos(x.hijos).len() ==> fecha_separable(
                    dato(#[trigger] elementos(x.hijos)[p], "FechaPago"@),
                )
        } by {
            assert(hijo_mostrable(hs[i]));
            assert(mostrable_en_complemento(elementos(hs[i].hijos)[k]));
        }
    } else {
        if fecha_separable(dato(e, "Fecha"@)) && sello_recortable(dato(e, "Sello"@)) {
            let i = choose|i: int| 0 <= i < hs.len() && !#[trigger] hijo_mostrable(hs[i]);
            let k = choose|k: int|
                0 <= k < elementos(hs[i].hijos).len() && !#[trigger] mostrable_en_complemento(
                    elementos(hs[i].hijos)[k],
                );
            let x = elementos(hs[i].hijos)[k];
            if x.nombre == "Pagos"@ && !pagos_mostrables(x) {
                let p = choose|p: int|
                    0 <= p < elementos(x.hijos).len() && !#[trigger] fecha_separable(
                        dato(elementos(x.hijos)[p], "FechaPago"@),
                    );
                assert(!fecha_separable(dato(elementos(x.hijos)[p], "FechaPago"@)));
            }
        }
    }
}

/// The header shows, in order: series, folio and date as date and time;
/// the type of document when it is in the catalogue; place of issue,
/// version, payment method and form spelled out, and the subtotal in money
/// format; when there is a discount, the discount and the net subtotal;
/// the total, the payment conditions, the currency and the issuer's
/// certificate number; and, when the exchange rate is neither empty nor
/// `1`, the rate and the total in pesos.
pub proof fn ley_cabecera(e: ElementoV, neto: Seq<char>, pesos: Seq<char>)
    ensures
        comandos_cabecera(e, neto, pesos) == ({
    let descuento = dato(e, "Descuento"@);
    let tipo_cambio = dato(e, "TipoCambio"@);
    seq![
        une(seq!["rellenarCabe('"@, "serie"@, "', '"@, "Serie"@, "', '"@, dato(e, "Serie"@), "')"@]),
        une(seq!["rellenarCabe('"@, "folio"@, "', '"@, "Folio"@, "', '"@, dato(e, "Folio"@), "')"@]),
        une(seq!["rellenarCabe('"@, "fecha"@, "', '"@, "Fecha"@, "', '"@, fecha_legible(dato(e, "Fecha"@)), "')"@]),
    ] + opcional(comando_tipo_cfdi(e)) + seq![
        une(seq!["rellenarCabe('"@, "lugarExp"@, "', '"@, "C.P. Expedición"@, "', '"@, dato(e, "LugarExpedicion"@), "')"@]),
        une(seq!["rellenar('"@, "versionCfdi"@, "', '"@, "Versión CFDI"@, "', '"@, dato(e, "Version"@), "')"@]),
        une(seq!["rellenar('"@, "metodoPago"@, "', '"@, "Metodo de Pago"@, "', '"@, texto_metodo_pago(e, "MetodoPago"@), "')"@]),
        une(seq!["rellenar('"@, "formaPago"@, "', '"@, "Forma de Pago"@, "', '"@, texto_forma_pago(e, "FormaPago"@), "')"@]),
        une(seq!["rellenar('"@, "subtotal"@, "', '"@, "Subtotal"@, "', '"@, formato_dinero(dato(e, "SubTotal"@)), "')"@]),
    ] + (if descuento.len() > 0 {
        seq![
            une(seq!["rellenar('"@, "descuento"@, "', '"@, "Descuento"@, "', '"@, une(seq!["- "@, formato_dinero(descuento)]), "')"@]),
            une(seq!["rellenar('"@, "subNeto"@, "', '"@, "Subtotal Neto"@, "', '"@, formato_dinero(neto), "')"@]),
        ]
    } else {
        Seq::empty()
    }) + seq![
        une(seq!["rellenar('"@, "total"@, "', '"@, "Total"@, "', '"@, formato_dinero(dato(e, "Total"@)), "')"@]),
        une(seq!["rellenar('"@, "condicionesPago"@, "', '"@, "Condiciones de Pago"@, "', '"@, dato(e, "CondicionesDePago"@), "')"@]),
        une(seq!["rellenar('"@, "moneda"@, "', '"@, "Moneda"@, "', '"@, dato(e, "Moneda"@), "')"@]),
        une(seq!["rellenar('"@, "certEmi"@, "', '"@, "Numero de Certificado Emisór"@, "', '"@, dato(e, "NoCertificado"@), "')"@]),
    ] + (if tipo_cambio != "1"@ && tipo_cambio.len() > 0 {
        seq![
            une(seq!["rellenar('"@, "tipoCambio"@, "', '"@, "Tipo de Cambio"@, "', '"@, formato_dinero(tipo_cambio), "')"@]),
            une(seq!["rellenar('"@, "totalPesos"@, "', '"@, "Total en Pesos"@, "', '"@, formato_dinero(pesos), "')"@]),
        ]
    } else {
        Seq::empty()
    })
        }),
{
}

/// The QR code, the last call, carries the same fiscal folio, RFCs and
/// total that `datos_cfdi` hands back for the query to the SAT, and the seal
/// is shown just before it.
pub proof fn ley_qr_con_los_datos_de_la_consulta(e: ElementoV, neto: Seq<char>, pesos: Seq<char>)
    ensures
        comandos_cfdi(e, neto, pesos).len() >= 2,
        comandos_cfdi(e, neto, pesos).last() == poner_qr(
            uuid_cfdi(e),
            rfc_emisor(e),
            rfc_receptor(e),
            dato(e, "Total"@),
            cola_sello(dato(e, "Sello"@)),
        ),
        comandos_cfdi(e, neto, pesos)[comandos_cfdi(e, neto, pesos).len() - 2] == rellenar_cortado(
            "selloEmi"@,
            "Sello Digital del CFDI"@,
            dato(e, "Sello"@),
        ),
{
}

/// Whether the date-time `f` can be cut at its `T`.
fn fecha_es_separable(f: &str) -> (r: bool)
    ensures
        r == fecha_separable(f@),
{
    if f.is_empty() {
        return true;
    }
    proof {
        reveal_strlit("T");
    }
    assert("T"@ =~= seq!['T']);
    let p = dividir(f, "T");
    assert(vistas(p@).len() == p@.len());
    p.len() >= 2
}

fn pagos_son_mostrables(p: &Elemento) -> (r: bool)
    ensures
        r == pagos_mostrables(p@),
{
    let ps = elementos_hijos(p);
    let ghost psv = elementos(p@.hijos);
    let mut k: usize = 0;
    while k < ps.len()
        invariant
            vistas_elementos(ps@) == psv,
            psv == elementos(p@.hijos),
            0 <= k <= ps@.len(),
            forall|q: int| 0 <= q < k ==> #[trigger] fecha_separable(dato(psv[q], "FechaPago"@)),
        decreases ps@.len() - k,
    {
        assert(vistas_elementos(ps@)[k as int] == ps@[k as int]@);
        if !fecha_es_separable(get_data(ps[k], "FechaPago")) {
            return false;
        }
        k = k + 1;
    }
    true
}

fn complemento_es_mostrable(c: &Elemento) -> (r: bool)
    ensures
        r == complemento_mostrable(c@),
{
    let cs = elementos_hijos(c);
    let ghost csv = elementos(c@.hijos);
    let mut i: usize = 0;
    while i < cs.len()
        invariant
            vistas_elementos(cs@) == csv,
            csv == elementos(c@.hijos),
            0 <= i <= cs@.len(),
            forall|q: int| 0 <= q < i ==> #[trigger] mostrable_en_complemento(csv[q]),
        decreases cs@.len() - i,
    {
        assert(vistas_elementos(cs@)[i as int] == cs@[i as int]@);
        let x = cs[i];
        proof {
            reveal_strlit("TimbreFiscalDigital");
            reveal_strlit("Pagos");
            assert("TimbreFiscalDigital"@.len() == 19 && "Pagos"@.len() == 5);
        }
        let bien = if iguales(x.nombre.as_str(), "TimbreFiscalDigital") {
            fecha_es_separable(get_data(x, "FechaTimbrado"))
        } else if iguales(x.nombre.as_str(), "Pagos") {
            pagos_son_mostrables(x)
        } else {
            true
        };
        assert(bien == mostrable_en_complemento(csv[i as int]));
        if !bien {
            return false;
        }
        i = i + 1;
    }
    true
}

/// Whether `datos_cfdi` can show `cfdi` (where it cannot, showing it stops).
pub fn se_puede_mostrar(cfdi: &Elemento) -> (r: bool)
    ensures
        r == cfdi_mostrable(cfdi@),
{
    if !fecha_es_separable(get_data(cfdi, "Fecha")) || !crate::texto::recortable(
        get_data(cfdi, "Sello"),
    ) {
        return false;
    }
    let hs = elementos_hijos(cfdi);
    let ghost hsv = elementos(cfdi@.hijos);
    let mut i: usize = 0;
    while i < hs.len()
        invariant
            vistas_elementos(hs@) == hsv,
            hsv == elementos(cfdi@.hijos),
            0 <= i <= hs@.len(),
            forall|q: int| 0 <= q < i ==> #[trigger] hijo_mostrable(hsv[q]),
        decreases hs@.len() - i,
    {
        assert(vistas_elementos(hs@)[i as int] == hs@[i as int]@);
        let h = hs[i];
        if iguales(h.nombre.as_str(), "Complemento") && !complemento_es_mostrable(h) {
            assert(!hijo_mostrable(hsv[i as int]));
            return false;
        }
        i = i + 1;
    }
    true
}

/// A tax line of the `j`-th concept carries the concept's number, the line's
/// number, the group's name, the line's amount in money format, its rate,
/// its factor type, its tax code completed with the tax's name and its base
/// in money format; a line of the document's summary carries the line's
/// number, the line's own element name, the completed tax code, the factor
/// type, the rate and the amount in money format.
pub proof fn ley_linea_impuesto(j: nat, n: nat, grupo: ElementoV, tr: ElementoV)
    ensures
        linea_impuesto(Some(j), n, grupo, tr) == une(seq!["addTrasRetConcep('"@, decimal(j), "', `"@, decimal(n), "`, `"@, grupo.nombre, "`, `"@, formato_dinero(dato(tr, "Importe"@)), "`, `"@, dato(tr, "TasaOCuota"@), "`, `"@, dato(tr, "TipoFactor"@), "`, `"@, impuesto_completo(dato(tr, "Impuesto"@)), "`, `"@, formato_dinero(dato(tr, "Base"@)), "`)"@]),
        linea_impuesto(None, n, grupo, tr) == une(seq!["addTrasRetImp(`"@, decimal(n), "`, `"@, tr.nombre, "`, `"@, impuesto_completo(dato(tr, "Impuesto"@)), "`, `"@, dato(tr, "TipoFactor"@), "`, `"@, dato(tr, "TasaOCuota"@), "`, `"@, formato_dinero(dato(tr, "Importe"@)), "`)"@]),
{
}

/// Each `Impuestos` element of the `j`-th concept opens with the call that
/// titles the taxes of concept `j`, followed by its tax lines.
pub proof fn ley_impuestos_concepto(j: nat, imp: ElementoV)
    ensures
        comandos_impuestos_concepto(j, imp) == seq![une(seq!["trasRetConcepCabe(`"@, decimal(j), "`)"@])]
            + comandos_lineas_impuestos(Some(j), elementos(imp.hijos)),
        comandos_impuestos(imp) == seq!["impuestosCabe()"@] + comandos_lineas_impuestos(None, elementos(imp.hijos)),
{
}

/// The issuer shows its RFC and its name, then its tax regime when the
/// regime is in the catalogue; the receiver shows its RFC and its name, then
/// its use of the document when the use is in the catalogue.
pub proof fn ley_emisor_receptor(e: ElementoV)
    ensures
        comandos_emisor(e).take(2) == seq![une(seq!["rellenar('"@, "rfcEmi"@, "', '"@, "RFC Emisor"@, "', '"@, dato(e, "Rfc"@), "')"@]), une(seq!["rellenar('"@, "razonEmi"@, "', '"@, "Razón Social"@, "', '"@, dato(e, "Nombre"@), "')"@])],
        comandos_emisor(e).skip(2) == opcional(comando_regimen_fiscal(e)),
        comandos_receptor(e).take(2) == seq![une(seq!["rellenar('"@, "rfcRec"@, "', '"@, "RFC Receptor"@, "', '"@, dato(e, "Rfc"@), "')"@]), une(seq!["rellenar('"@, "razonRec"@, "', '"@, "Razón Social"@, "', '"@, dato(e, "Nombre"@), "')"@])],
        comandos_receptor(e).skip(2) == opcional(comando_uso_cfdi(e)),
{
}

/// The digital stamp shows its stamping date as date and time, the SAT's
/// certificate number, the SAT's seal, the fiscal folio in the header, and
/// the original chain `||Version|UUID|FechaTimbrado|RfcProvCertif[|Leyenda]|SelloCFD|NoCertificadoSAT||`.
pub proof fn ley_timbre(t: ElementoV)
    ensures
        comandos_timbre(t) == seq![
            une(seq!["rellenar('"@, "fechaTimbre"@, "', '"@, "Fecha de Timbrado"@, "', '"@, fecha_legible(dato(t, "FechaTimbrado"@)), "')"@]),
            une(seq!["rellenar('"@, "certSat"@, "', '"@, "Numero de Certificado SAT"@, "', '"@, dato(t, "NoCertificadoSAT"@), "')"@]),
            une(seq!["rellenar_cortado('"@, "selloSat"@, "', '"@, "Sello Digital del SAT"@, "', '"@, dato(t, "SelloSAT"@), "')"@]),
            une(seq!["rellenarCabe('"@, "uuid"@, "', '"@, "Folio Fiscal UUID"@, "', '"@, dato(t, "UUID"@), "')"@]),
            une(seq!["rellenar_cortado('"@, "cadenaTim"@, "', '"@, "Cadena Original del Timbre"@, "', '"@, une(seq!["||"@, dato(t, "Version"@), "|"@, dato(t, "UUID"@), "|"@, dato(t, "FechaTimbrado"@), "|"@, dato(t, "RfcProvCertif"@), (if dato(t, "Leyenda"@).len() == 0 { Seq::empty() } else { "|"@ + dato(t, "Leyenda"@) }), "|"@, dato(t, "SelloCFD"@), "|"@, dato(t, "NoCertificadoSAT"@), "||"@]), "')"@]),
        ],
{
    let l = dato(t, "Leyenda"@);
    if l.len() != 0 {
        reveal_with_fuel(une, 3);
        assert(seq!["|"@, l].drop_last() =~= seq!["|"@]);
        assert(seq!["|"@].drop_last() =~= Seq::<Seq<char>>::empty());
        assert(Seq::<char>::empty() + "|"@ =~= "|"@);
    }
}

/// The `k`-th payment of a payments complement is shown, right after the
/// call that opens the payments, with its number, its date as date and
/// time, its form of payment spelled out, its currency and its amount in
/// money format.
pub proof fn ley_linea_pago(p: ElementoV, k: int)
    requires
        0 <= k < elementos(p.hijos).len(),
    ensures
        comandos_pagos(p).len() == 1 + elementos(p.hijos).len(),
        comandos_pagos(p)[0] == "pagosCont()"@,
        ({
            let x = elementos(p.hijos)[k];
            comandos_pagos(p)[1 + k] == une(seq!["pagoCabe('"@, decimal(k as nat), "','"@, fecha_legible(dato(x, "FechaPago"@)), "','"@, texto_forma_pago(x, "FormaDePagoP"@), "','"@, dato(x, "MonedaP"@), "','"@, formato_dinero(dato(x, "Monto"@)), "','{}')"@])
        }),
{
    let ps = elementos(p.hijos);
    lema_aplanar_unitario(ps.len(), lineas_pagos(ps));
    lema_aplanar_unitario(k as nat, lineas_pagos(ps));
    lema_aplanar_indice(ps.len(), lineas_pagos(ps), k, 0);
}

/// The related documents are titled by their relation when it is in the
/// catalogue, then each is shown with its number and its fiscal folio.
pub proof fn ley_linea_relacionado(c: ElementoV, k: int)
    requires
        0 <= k < elementos(c.hijos).len(),
    ensures
        ({
            let o = opcional(comando_tipo_relacion(c));
            let x = elementos(c.hijos)[k];
            &&& comandos_relacionados(c).len() == o.len() + elementos(c.hijos).len()
            &&& comandos_relacionados(c)[o.len() + k] == une(seq!["addRelacionado(`"@, decimal(k as nat), "`, `"@, dato(x, "UUID"@), "`)"@])
        }),
        comando_tipo_relacion(c) matches Some(x) ==> x == une(seq!["rellenarRelacionadosCabe('"@, une(seq![dato(c, "TipoRelacion"@), " - "@, tipo_relacion_desc(dato(c, "TipoRelacion"@)).unwrap()]), "')"@]),
{
    let rs = elementos(c.hijos);
    lema_aplanar_unitario(rs.len(), lineas_relacionados(rs));
    lema_aplanar_unitario(k as nat, lineas_relacionados(rs));
    lema_aplanar_indice(rs.len(), lineas_relacionados(rs), k, 0);
}

/// The last two calls show the issuer's seal and draw the QR code of the
/// SAT's verification page for the fiscal folio, the issuer's RFC, the
/// receiver's RFC, the total and the last eight bytes of the seal, in that order.
pub proof fn ley_sello_y_qr(e: ElementoV, neto: Seq<char>, pesos: Seq<char>)
    ensures
        ({
            let c = comandos_cfdi(e, neto, pesos);
            &&& c.len() >= 2
            &&& c[c.len() - 2] == une(seq!["rellenar_cortado('"@, "selloEmi"@, "', '"@, "Sello Digital del CFDI"@, "', '"@, dato(e, "Sello"@), "')"@])
            &&& c[c.len() - 1] == une(seq!["ponerQr('https://verificacfdi.facturaelectronica.sat.gob.mx/default.aspx?id="@, uuid_cfdi(e), "&re="@, rfc_emisor(e), "&rr="@, rfc_receptor(e), "&tt="@, dato(e, "Total"@), "&fe="@, cola_sello(dato(e, "Sello"@)), "')"@])
        }),
{
}

/// Each child element of the document is shown by the block its name calls
/// for (the issuer's, the receiver's, the concepts', the tax summary's, the
/// complement's or the related documents'), and an element of any other name
/// shows nothing; inside the complement, a digital stamp shows the stamp, a
/// payments element the payments, and anything else nothing.
pub proof fn ley_bloque_por_nombre(c: ElementoV)
    ensures
        c.nombre == "Emisor"@ ==> comandos_hijo(c) == comandos_emisor(c),
        c.nombre == "Receptor"@ ==> comandos_hijo(c) == comandos_receptor(c),
        c.nombre == "Conceptos"@ ==> comandos_hijo(c) == comandos_conceptos(c),
        c.nombre == "Impuestos"@ ==> comandos_hijo(c) == comandos_impuestos(c),
        c.nombre == "Complemento"@ ==> comandos_hijo(c) == comandos_complemento(c),
        c.nombre == "CfdiRelacionados"@ ==> comandos_hijo(c) == comandos_relacionados(c),
        c.nombre != "Emisor"@ && c.nombre != "Receptor"@ && c.nombre != "Conceptos"@ && c.nombre
            != "Impuestos"@ && c.nombre != "Complemento"@ && c.nombre != "CfdiRelacionados"@
            ==> comandos_hijo(c).len() == 0,
        c.nombre == "TimbreFiscalDigital"@ ==> comandos_en_complemento(c) == comandos_timbre(c),
        c.nombre == "Pagos"@ ==> comandos_en_complemento(c) == comandos_pagos(c),
        c.nombre != "TimbreFiscalDigital"@ && c.nombre != "Pagos"@ ==> comandos_en_complemento(
            c,
        ).len() == 0,
{
    reveal_strlit("Emisor");
    reveal_strlit("Receptor");
    reveal_strlit("Conceptos");
    reveal_strlit("Impuestos");
    reveal_strlit("Complemento");
    reveal_strlit("CfdiRelacionados");
    reveal_strlit("TimbreFiscalDigital");
    reveal_strlit("Pagos");
    assert("Emisor"@.len() == 6 && "Receptor"@.len() == 8 && "Conceptos"@.len() == 9);
    assert("Impuestos"@.len() == 9 && "Complemento"@.len() == 11);
    assert("CfdiRelacionados"@.len() == 16 && "TimbreFiscalDigital"@.len() == 19);
    assert("Pagos"@.len() == 5);
    assert("Conceptos"@[0] != "Impuestos"@[0]);
}

/// The `j`-th call of the block of the `i`-th child element stands in the
/// calls that show the document right after the header and the blocks of
/// the children before it: the children are shown in document order, each
/// whole.
pub proof fn ley_bloque_de_hijo(e: ElementoV, neto: Seq<char>, pesos: Seq<char>, i: int, j: int)
    requires
        0 <= i < elementos(e.hijos).len(),
        0 <= j < comandos_hijo(elementos(e.hijos)[i]).len(),
    ensures
        ({
            let hs = elementos(e.hijos);
            let pos: int = comandos_cabecera(e, neto, pesos).len() + aplanar(
                i as nat,
                lineas_hijos(hs),
            ).len() + j;
            &&& pos < comandos_cfdi(e, neto, pesos).len()
            &&& comandos_cfdi(e, neto, pesos)[pos] == comandos_hijo(hs[i])[j]
        }),
{
    let hs = elementos(e.hijos);
    lema_aplanar_indice(hs.len(), lineas_hijos(hs), i, j);
}

/// Attribute `k` of the last element of `s` named `nombre` is what
/// [`ultimo`] finds, and it finds nothing when no element has that name.
pub proof fn ley_ultimo(s: Seq<ElementoV>, nombre: Seq<char>, k: Seq<char>)
    ensures
        (forall|i: int| 0 <= i < s.len() ==> (#[trigger] s[i]).nombre != nombre) ==> ultimo(
            s,
            nombre,
            k,
        ) is None,
        forall|i: int|
            0 <= i < s.len() && (#[trigger] s[i]).nombre == nombre && (forall|m: int|
                i < m < s.len() ==> (#[trigger] s[m]).nombre != nombre) ==> ultimo(s, nombre, k)
                == Some(dato(s[i], k)),
    decreases s.len(),
{
    if s.len() > 0 {
        let t = s.drop_last();
        ley_ultimo(t, nombre, k);
        assert forall|i: int| 0 <= i < t.len() implies t[i] == #[trigger] s[i] by {}
        assert forall|i: int|
            0 <= i < s.len() && (#[trigger] s[i]).nombre == nombre && (forall|m: int|
                i < m < s.len() ==> (#[trigger] s[m]).nombre != nombre) implies ultimo(s, nombre, k)
            == Some(dato(s[i], k)) by {
            if i < s.len() - 1 {
                assert(s[s.len() - 1].nombre != nombre);
                assert(t[i] == s[i]);
                assert forall|m: int| i < m < t.len() implies (#[trigger] t[m]).nombre != nombre by {
                    assert(t[m] == s[m]);
                }
            }
        }
        if forall|i: int| 0 <= i < s.len() ==> (#[trigger] s[i]).nombre != nombre {
            assert(s[s.len() - 1].nombre != nombre);
            assert forall|i: int| 0 <= i < t.len() implies (#[trigger] t[i]).nombre != nombre by {
                assert(t[i] == s[i]);
            }
        }
    }
}

/// The issuer's and the receiver's RFC that the document is checked by are
/// the `Rfc` of the last `Emisor` and of the last `Receptor` among its
/// children, or empty when there is none.
pub proof fn ley_rfc_emisor_receptor(e: ElementoV)
    ensures
        ({
            let hs = elementos(e.hijos);
            &&& (forall|i: int| 0 <= i < hs.len() ==> (#[trigger] hs[i]).nombre != "Emisor"@)
                ==> rfc_emisor(e) == Seq::<char>::empty()
            &&& forall|i: int|
                0 <= i < hs.len() && (#[trigger] hs[i]).nombre == "Emisor"@ && (forall|m: int|
                    i < m < hs.len() ==> (#[trigger] hs[m]).nombre != "Emisor"@) ==> rfc_emisor(e)
                    == dato(hs[i], "Rfc"@)
            &&& (forall|i: int| 0 <= i < hs.len() ==> (#[trigger] hs[i]).nombre != "Receptor"@)
                ==> rfc_receptor(e) == Seq::<char>::empty()
            &&& forall|i: int|
                0 <= i < hs.len() && (#[trigger] hs[i]).nombre == "Receptor"@ && (forall|m: int|
                    i < m < hs.len() ==> (#[trigger] hs[m]).nombre != "Receptor"@) ==> rfc_receptor(
                    e,
                ) == dato(hs[i], "Rfc"@)
        }),
{
    let hs = elementos(e.hijos);
    ley_ultimo(hs, "Emisor"@, "Rfc"@);
    ley_ultimo(hs, "Receptor"@, "Rfc"@);
}

/// The fiscal folio found among elements `s` is the `UUID` of the last digital
/// stamp inside the last complement that holds one, and none is found when no
/// complement holds a digital stamp.
pub proof fn ley_uuid_en(s: Seq<ElementoV>)
    ensures
        (forall|i: int, n: int|
            0 <= i < s.len() && s[i].nombre == "Complemento"@ && 0 <= n < elementos(s[i].hijos).len()
                ==> (#[trigger] elementos(s[i].hijos)[n]).nombre != "TimbreFiscalDigital"@)
            ==> uuid_en(s) is None,
        forall|i: int, t: int|
            0 <= i < s.len() && s[i].nombre == "Complemento"@ && 0 <= t < elementos(s[i].hijos).len()
                && (#[trigger] elementos(s[i].hijos)[t]).nombre == "TimbreFiscalDigital"@ && (forall|
                n: int,
            |
                t < n < elementos(s[i].hijos).len() ==> (#[trigger] elementos(s[i].hijos)[n]).nombre
                    != "TimbreFiscalDigital"@) && (forall|m: int, n: int|
                i < m < s.len() && s[m].nombre == "Complemento"@ && 0 <= n < elementos(
                    s[m].hijos,
                ).len() ==> (#[trigger] elementos(s[m].hijos)[n]).nombre
                    != "TimbreFiscalDigital"@) ==> uuid_en(s) == Some(
                dato(elementos(s[i].hijos)[t], "UUID"@),
            ),
    decreases s.len(),
{
    if s.len() > 0 {
        let u = s.drop_last();
        let l = s.last();
        let cs = elementos(l.hijos);
        ley_ultimo(cs, "TimbreFiscalDigital"@, "UUID"@);
        ley_uuid_en(u);
        assert forall|i: int| 0 <= i < u.len() implies u[i] == #[trigger] s[i] by {}
        if l.nombre == "Complemento"@ && ultimo(cs, "TimbreFiscalDigital"@, "UUID"@) is Some {
            assert(exists|n: int| 0 <= n < cs.len() && (#[trigger] cs[n]).nombre == "TimbreFiscalDigital"@);
        }
        assert forall|i: int, t: int|
            0 <= i < s.len() && s[i].nombre == "Complemento"@ && 0 <= t < elementos(s[i].hijos).len()
                && (#[trigger] elementos(s[i].hijos)[t]).nombre == "TimbreFiscalDigital"@ && (forall|
                n: int,
            |
                t < n < elementos(s[i].hijos).len() ==> (#[trigger] elementos(s[i].hijos)[n]).nombre
                    != "TimbreFiscalDigital"@) && (forall|m: int, n: int|
                i < m < s.len() && s[m].nombre == "Complemento"@ && 0 <= n < elementos(
                    s[m].hijos,
                ).len() ==> (#[trigger] elementos(s[m].hijos)[n]).nombre
                    != "TimbreFiscalDigital"@) implies uuid_en(s) == Some(
            dato(elementos(s[i].hijos)[t], "UUID"@),
        ) by {
            if i == s.len() - 1 {
                assert(cs[t].nombre == "TimbreFiscalDigital"@);
                assert(ultimo(cs, "TimbreFiscalDigital"@, "UUID"@) == Some(dato(cs[t], "UUID"@)));
            } else {
                assert(u[i] == s[i]);
                if l.nombre == "Complemento"@ {
                    assert forall|n: int| 0 <= n < cs.len() implies (#[trigger] cs[n]).nombre
                        != "TimbreFiscalDigital"@ by {
                        assert(elementos(s[s.len() - 1].hijos)[n] == cs[n]);
                    }
                }
                assert forall|m: int, n: int|
                    i < m < u.len() && u[m].nombre == "Complemento"@ && 0 <= n < elementos(
                        u[m].hijos,
                    ).len() implies (#[trigger] elementos(u[m].hijos)[n]).nombre
                    != "TimbreFiscalDigital"@ by {
                    assert(u[m] == s[m]);
                }
            }
        }
        if forall|i: int, n: int|
            0 <= i < s.len() && s[i].nombre == "Complemento"@ && 0 <= n < elementos(s[i].hijos).len()
                ==> (#[trigger] elementos(s[i].hijos)[n]).nombre != "TimbreFiscalDigital"@ {
            if l.nombre == "Complemento"@ {
                assert forall|n: int| 0 <= n < cs.len() implies (#[trigger] cs[n]).nombre
                    != "TimbreFiscalDigital"@ by {
                    assert(elementos(s[s.len() - 1].hijos)[n] == cs[n]);
                }
            }
            assert forall|i: int, n: int|
                0 <= i < u.len() && u[i].nombre == "Complemento"@ && 0 <= n < elementos(
                    u[i].hijos,
                ).len() implies (#[trigger] elementos(u[i].hijos)[n]).nombre
                != "TimbreFiscalDigital"@ by {
                assert(u[i] == s[i]);
            }
        }
    }
}

/// The fiscal folio the document is checked by, and put in its QR code, is
/// the `UUID` of the last digital stamp inside the last complement that holds
/// one, or empty when no complement holds a digital stamp.
pub proof fn ley_uuid_cfdi(e: ElementoV)
    ensures
        ({
            let hs = elementos(e.hijos);
            &&& (forall|i: int, n: int|
                0 <= i < hs.len() && hs[i].nombre == "Complemento"@ && 0 <= n < elementos(
                    hs[i].hijos,
                ).len() ==> (#[trigger] elementos(hs[i].hijos)[n]).nombre
                    != "TimbreFiscalDigital"@) ==> uuid_cfdi(e) == Seq::<char>::empty()
            &&& forall|i: int, t: int|
                0 <= i < hs.len() && hs[i].nombre == "Complemento"@ && 0 <= t < elementos(
                    hs[i].hijos,
                ).len() && (#[trigger] elementos(hs[i].hijos)[t]).nombre == "TimbreFiscalDigital"@
                    && (forall|n: int|
                    t < n < elementos(hs[i].hijos).len() ==> (#[trigger] elementos(
                        hs[i].hijos,
                    )[n]).nombre != "TimbreFiscalDigital"@) && (forall|m: int, n: int|
                    i < m < hs.len() && hs[m].nombre == "Complemento"@ && 0 <= n < elementos(
                        hs[m].hijos,
                    ).len() ==> (#[trigger] elementos(hs[m].hijos)[n]).nombre
                        != "TimbreFiscalDigital"@) ==> uuid_cfdi(e) == dato(
                    elementos(hs[i].hijos)[t],
                    "UUID"@,
                )
        }),
{
    ley_uuid_en(elementos(e.hijos));
}

/// The concepts table always opens with the call that shows it, before the
/// line of any concept.
pub proof fn ley_conceptos_abre(c: ElementoV)
    ensures
        comandos_conceptos(c).len() >= 1,
        comandos_conceptos(c)[0] == "showConcep(true)"@,
{
}
} // verus!
