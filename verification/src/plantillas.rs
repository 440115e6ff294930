use vstd::prelude::*;

use crate::texto::{concatenar, une};

verus! {

/// The view call that fills a labelled field.
pub open spec fn rellenar(id: Seq<char>, tit: Seq<char>, dato: Seq<char>) -> Seq<char> {
    une(seq!["rellenar('"@, id, "', '"@, tit, "', '"@, dato, "')"@])
}

/// Writes the call of [`rellenar`].
pub fn escribir_rellenar(id: &str, tit: &str, dato: &str) -> (r: String)
    ensures
        r@ == rellenar(id@, tit@, dato@),
{
    let r = concatenar(&["rellenar('", id, "', '", tit, "', '", dato, "')"]);
    assert(seq!["rellenar('", id, "', '", tit, "', '", dato, "')"].map_values(|p: &str| p@) =~= seq!["rellenar('"@, id@, "', '"@, tit@, "', '"@, dato@, "')"@]);
    r
}

/// The view call that fills a labelled field of the header.
pub open spec fn rellenar_cabe(id: Seq<char>, tit: Seq<char>, dato: Seq<char>) -> Seq<char> {
    une(seq!["rellenarCabe('"@, id, "', '"@, tit, "', '"@, dato, "')"@])
}

/// Writes the call of [`rellenar_cabe`].
pub fn escribir_rellenar_cabe(id: &str, tit: &str, dato: &str) -> (r: String)
    ensures
        r@ == rellenar_cabe(id@, tit@, dato@),
{
    let r = concatenar(&["rellenarCabe('", id, "', '", tit, "', '", dato, "')"]);
    assert(seq!["rellenarCabe('", id, "', '", tit, "', '", dato, "')"].map_values(|p: &str| p@) =~= seq!["rellenarCabe('"@, id@, "', '"@, tit@, "', '"@, dato@, "')"@]);
    r
}

/// The view call that fills a long labelled field that the view wraps.
pub open spec fn rellenar_cortado(id: Seq<char>, tit: Seq<char>, dato: Seq<char>) -> Seq<char> {
    une(seq!["rellenar_cortado('"@, id, "', '"@, tit, "', '"@, dato, "')"@])
}

/// Writes the call of [`rellenar_cortado`].
pub fn escribir_rellenar_cortado(id: &str, tit: &str, dato: &str) -> (r: String)
    ensures
        r@ == rellenar_cortado(id@, tit@, dato@),
{
    let r = concatenar(&["rellenar_cortado('", id, "', '", tit, "', '", dato, "')"]);
    assert(seq!["rellenar_cortado('", id, "', '", tit, "', '", dato, "')"].map_values(|p: &str| p@) =~= seq!["rellenar_cortado('"@, id@, "', '"@, tit@, "', '"@, dato@, "')"@]);
    r
}

/// The view call that adds a line of the concepts table.
pub open spec fn add_concep(idx: Seq<char>, cantidad: Seq<char>, clave_unidad: Seq<char>, unidad: Seq<char>, clave_prod: Seq<char>, no_ident: Seq<char>, valor: Seq<char>, descripcion: Seq<char>, importe: Seq<char>, descuento: Seq<char>) -> Seq<char> {
    une(seq!["addConcep(`"@, idx, "`, `"@, cantidad, "`, `"@, clave_unidad, "`, `"@, unidad, "`, `"@, clave_prod, "`, `"@, no_ident, "`, `"@, valor, "`, `"@, descripcion, "`, `"@, importe, "`, `- "@, descuento, "`)"@])
}

/// Writes the call of [`add_concep`].
pub fn escribir_add_concep(idx: &str, cantidad: &str, clave_unidad: &str, unidad: &str, clave_prod: &str, no_ident: &str, valor: &str, descripcion: &str, importe: &str, descuento: &str) -> (r: String)
    ensures
        r@ == add_concep(idx@, cantidad@, clave_unidad@, unidad@, clave_prod@, no_ident@, valor@, descripcion@, importe@, descuento@),
{
    let r = concatenar(&["addConcep(`", idx, "`, `", cantidad, "`, `", clave_unidad, "`, `", unidad, "`, `", clave_prod, "`, `", no_ident, "`, `", valor, "`, `", descripcion, "`, `", importe, "`, `- ", descuento, "`)"]);
    assert(seq!["addConcep(`", idx, "`, `", cantidad, "`, `", clave_unidad, "`, `", unidad, "`, `", clave_prod, "`, `", no_ident, "`, `", valor, "`, `", descripcion, "`, `", importe, "`, `- ", descuento, "`)"].map_values(|p: &str| p@) =~= seq!["addConcep(`"@, idx@, "`, `"@, cantidad@, "`, `"@, clave_unidad@, "`, `"@, unidad@, "`, `"@, clave_prod@, "`, `"@, no_ident@, "`, `"@, valor@, "`, `"@, descripcion@, "`, `"@, importe@, "`, `- "@, descuento@, "`)"@]);
    r
}

/// The view call that opens the taxes of a concept.
pub open spec fn tras_ret_concep_cabe(idx: Seq<char>) -> Seq<char> {
    une(seq!["trasRetConcepCabe(`"@, idx, "`)"@])
}

/// Writes the call of [`tras_ret_concep_cabe`].
pub fn escribir_tras_ret_concep_cabe(idx: &str) -> (r: String)
    ensures
        r@ == tras_ret_concep_cabe(idx@),
{
    let r = concatenar(&["trasRetConcepCabe(`", idx, "`)"]);
    assert(seq!["trasRetConcepCabe(`", idx, "`)"].map_values(|p: &str| p@) =~= seq!["trasRetConcepCabe(`"@, idx@, "`)"@]);
    r
}

/// The view call that adds a tax line to a concept.
pub open spec fn add_tras_ret_concep(idx: Seq<char>, id_imp: Seq<char>, grupo: Seq<char>, importe: Seq<char>, tasa: Seq<char>, tipo_factor: Seq<char>, impuesto: Seq<char>, base: Seq<char>) -> Seq<char> {
    une(seq!["addTrasRetConcep('"@, idx, "', `"@, id_imp, "`, `"@, grupo, "`, `"@, importe, "`, `"@, tasa, "`, `"@, tipo_factor, "`, `"@, impuesto, "`, `"@, base, "`)"@])
}

/// Writes the call of [`add_tras_ret_concep`].
pub fn escribir_add_tras_ret_concep(idx: &str, id_imp: &str, grupo: &str, importe: &str, tasa: &str, tipo_factor: &str, impuesto: &str, base: &str) -> (r: String)
    ensures
        r@ == add_tras_ret_concep(idx@, id_imp@, grupo@, importe@, tasa@, tipo_factor@, impuesto@, base@),
{
    let r = concatenar(&["addTrasRetConcep('", idx, "', `", id_imp, "`, `", grupo, "`, `", importe, "`, `", tasa, "`, `", tipo_factor, "`, `", impuesto, "`, `", base, "`)"]);
    assert(seq!["addTrasRetConcep('", idx, "', `", id_imp, "`, `", grupo, "`, `", importe, "`, `", tasa, "`, `", tipo_factor, "`, `", impuesto, "`, `", base, "`)"].map_values(|p: &str| p@) =~= seq!["addTrasRetConcep('"@, idx@, "', `"@, id_imp@, "`, `"@, grupo@, "`, `"@, importe@, "`, `"@, tasa@, "`, `"@, tipo_factor@, "`, `"@, impuesto@, "`, `"@, base@, "`)"@]);
    r
}

/// The view call that adds a line of the document's tax summary.
pub open spec fn add_tras_ret_imp(idx: Seq<char>, grupo: Seq<char>, impuesto: Seq<char>, tipo_factor: Seq<char>, tasa: Seq<char>, importe: Seq<char>) -> Seq<char> {
    une(seq!["addTrasRetImp(`"@, idx, "`, `"@, grupo, "`, `"@, impuesto, "`, `"@, tipo_factor, "`, `"@, tasa, "`, `"@, importe, "`)"@])
}

/// Writes the call of [`add_tras_ret_imp`].
pub fn escribir_add_tras_ret_imp(idx: &str, grupo: &str, impuesto: &str, tipo_factor: &str, tasa: &str, importe: &str) -> (r: String)
    ensures
        r@ == add_tras_ret_imp(idx@, grupo@, impuesto@, tipo_factor@, tasa@, importe@),
{
    let r = concatenar(&["addTrasRetImp(`", idx, "`, `", grupo, "`, `", impuesto, "`, `", tipo_factor, "`, `", tasa, "`, `", importe, "`)"]);
    assert(seq!["addTrasRetImp(`", idx, "`, `", grupo, "`, `", impuesto, "`, `", tipo_factor, "`, `", tasa, "`, `", importe, "`)"].map_values(|p: &str| p@) =~= seq!["addTrasRetImp(`"@, idx@, "`, `"@, grupo@, "`, `"@, impuesto@, "`, `"@, tipo_factor@, "`, `"@, tasa@, "`, `"@, importe@, "`)"@]);
    r
}

/// The view call that adds a payment of the payments complement.
pub open spec fn pago_cabe(id: Seq<char>, fecha: Seq<char>, forma: Seq<char>, moneda: Seq<char>, monto: Seq<char>) -> Seq<char> {
    une(seq!["pagoCabe('"@, id, "','"@, fecha, "','"@, forma, "','"@, moneda, "','"@, monto, "','{}')"@])
}

/// Writes the call of [`pago_cabe`].
pub fn escribir_pago_cabe(id: &str, fecha: &str, forma: &str, moneda: &str, monto: &str) -> (r: String)
    ensures
        r@ == pago_cabe(id@, fecha@, forma@, moneda@, monto@),
{
    let r = concatenar(&["pagoCabe('", id, "','", fecha, "','", forma, "','", moneda, "','", monto, "','{}')"]);
    assert(seq!["pagoCabe('", id, "','", fecha, "','", forma, "','", moneda, "','", monto, "','{}')"].map_values(|p: &str| p@) =~= seq!["pagoCabe('"@, id@, "','"@, fecha@, "','"@, forma@, "','"@, moneda@, "','"@, monto@, "','{}')"@]);
    r
}

/// The view call that titles the related documents.
pub open spec fn rellenar_relacionados_cabe(tipo: Seq<char>) -> Seq<char> {
    une(seq!["rellenarRelacionadosCabe('"@, tipo, "')"@])
}

/// Writes the call of [`rellenar_relacionados_cabe`].
pub fn escribir_rellenar_relacionados_cabe(tipo: &str) -> (r: String)
    ensures
        r@ == rellenar_relacionados_cabe(tipo@),
{
    let r = concatenar(&["rellenarRelacionadosCabe('", tipo, "')"]);
    assert(seq!["rellenarRelacionadosCabe('", tipo, "')"].map_values(|p: &str| p@) =~= seq!["rellenarRelacionadosCabe('"@, tipo@, "')"@]);
    r
}

/// The view call that adds a related document.
pub open spec fn add_relacionado(idx: Seq<char>, uuid: Seq<char>) -> Seq<char> {
    une(seq!["addRelacionado(`"@, idx, "`, `"@, uuid, "`)"@])
}

/// Writes the call of [`add_relacionado`].
pub fn escribir_add_relacionado(idx: &str, uuid: &str) -> (r: String)
    ensures
        r@ == add_relacionado(idx@, uuid@),
{
    let r = concatenar(&["addRelacionado(`", idx, "`, `", uuid, "`)"]);
    assert(seq!["addRelacionado(`", idx, "`, `", uuid, "`)"].map_values(|p: &str| p@) =~= seq!["addRelacionado(`"@, idx@, "`, `"@, uuid@, "`)"@]);
    r
}

/// The view call that draws the verification QR code.
pub open spec fn poner_qr(id: Seq<char>, re: Seq<char>, rr: Seq<char>, tt: Seq<char>, fe: Seq<char>) -> Seq<char> {
    une(seq!["ponerQr('https://verificacfdi.facturaelectronica.sat.gob.mx/default.aspx?id="@, id, "&re="@, re, "&rr="@, rr, "&tt="@, tt, "&fe="@, fe, "')"@])
}

/// Writes the call of [`poner_qr`].
pub fn escribir_poner_qr(id: &str, re: &str, rr: &str, tt: &str, fe: &str) -> (r: String)
    ensures
        r@ == poner_qr(id@, re@, rr@, tt@, fe@),
{
    let r = concatenar(&["ponerQr('https://verificacfdi.facturaelectronica.sat.gob.mx/default.aspx?id=", id, "&re=", re, "&rr=", rr, "&tt=", tt, "&fe=", fe, "')"]);
    assert(seq!["ponerQr('https://verificacfdi.facturaelectronica.sat.gob.mx/default.aspx?id=", id, "&re=", re, "&rr=", rr, "&tt=", tt, "&fe=", fe, "')"].map_values(|p: &str| p@) =~= seq!["ponerQr('https://verificacfdi.facturaelectronica.sat.gob.mx/default.aspx?id="@, id@, "&re="@, re@, "&rr="@, rr@, "&tt="@, tt@, "&fe="@, fe@, "')"@]);
    r
}

/// The view call that shows the validity the SAT reports.
pub open spec fn es_valido(estado: Seq<char>) -> Seq<char> {
    une(seq!["esValido('"@, estado, "')"@])
}

/// Writes the call of [`es_valido`].
pub fn escribir_es_valido(estado: &str) -> (r: String)
    ensures
        r@ == es_valido(estado@),
{
    let r = concatenar(&["esValido('", estado, "')"]);
    assert(seq!["esValido('", estado, "')"].map_values(|p: &str| p@) =~= seq!["esValido('"@, estado@, "')"@]);
    r
}

} // verus!
