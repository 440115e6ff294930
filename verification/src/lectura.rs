use vstd::prelude::*;

use crate::texto::{dividir, ocurrencia, lema_partes_no_vacias, lema_partes_sin_caracter, ley_partes_sin_separador, partes, vistas};
use crate::xml::{analizar_xml, dato, xml_analizado, Elemento, ElementoV};

verus! {

broadcast use vstd::string::group_string_axioms;

/// Why a file could not be opened as a CFDI 3.3.
#[derive(Debug, PartialEq, Eq, Structural)]
pub enum ErrorLectura {
    /// The file name does not end in `.xml`.
    ExtensionNoValida,
    /// The file could not be read as text.
    ArchivoIlegible,
    /// The text is not well-formed XML.
    XmlNoValido,
    /// The XML is not a `Comprobante` of version 3.3.
    NoEsCfdi33,
}

impl ErrorLectura {
    /// The message the user is shown.
    pub fn mensaje(&self) -> (r: &'static str)
        ensures
            r@ == mensaje_error(*self),
    {
        match self {
            ErrorLectura::ExtensionNoValida => "Extensión del archivo no valida",
            ErrorLectura::ArchivoIlegible => "Error al leer el archivo",
            ErrorLectura::XmlNoValido => "Comprobante no valido",
            ErrorLectura::NoEsCfdi33 => "Este xml no es un comprobante CFDI v.3.3 valido",
        }
    }
}

/// The message shown for each error.
pub open spec fn mensaje_error(e: ErrorLectura) -> Seq<char> {
    match e {
        ErrorLectura::ExtensionNoValida => "Extensión del archivo no valida"@,
        ErrorLectura::ArchivoIlegible => "Error al leer el archivo"@,
        ErrorLectura::XmlNoValido => "Comprobante no valido"@,
        ErrorLectura::NoEsCfdi33 => "Este xml no es un comprobante CFDI v.3.3 valido"@,
    }
}

/// Each reason for refusing a file is told with its own message: the
/// extension, the reading, the XML and the version each have theirs.
pub proof fn ley_mensajes()
    ensures
        mensaje_error(ErrorLectura::ExtensionNoValida) == "Extensión del archivo no valida"@,
        mensaje_error(ErrorLectura::ArchivoIlegible) == "Error al leer el archivo"@,
        mensaje_error(ErrorLectura::XmlNoValido) == "Comprobante no valido"@,
        mensaje_error(ErrorLectura::NoEsCfdi33) == "Este xml no es un comprobante CFDI v.3.3 valido"@,
        forall|a: ErrorLectura, b: ErrorLectura| #[trigger] mensaje_error(a) == #[trigger] mensaje_error(b) ==> a == b,
{
    reveal_strlit("Extensión del archivo no valida");
    reveal_strlit("Error al leer el archivo");
    reveal_strlit("Comprobante no valido");
    reveal_strlit("Este xml no es un comprobante CFDI v.3.3 valido");
    assert("Extensión del archivo no valida"@.len() == 31);
    assert("Error al leer el archivo"@.len() == 24);
    assert("Comprobante no valido"@.len() == 21);
    assert("Este xml no es un comprobante CFDI v.3.3 valido"@.len() == 47);
}

/// `c` separates the components of a path: `/`, and on Windows also `\`.
pub open spec fn es_separador(c: char, en_windows: bool) -> bool {
    c == '/' || (en_windows && c == '\\')
}

/// The run of characters other than separators at the end of `s`.
pub open spec fn cola_componente(s: Seq<char>, en_windows: bool) -> Seq<char>
    decreases s.len(),
{
    if s.len() == 0 || es_separador(s.last(), en_windows) {
        Seq::empty()
    } else {
        cola_componente(s.drop_last(), en_windows).push(s.last())
    }
}

/// The last component of a path, passing over repeated or trailing
/// separators and `.` components, as `Path::components` normalizes them.
pub open spec fn ultima_parte(s: Seq<char>, en_windows: bool) -> Option<Seq<char>>
    decreases s.len(),
{
    if s.len() == 0 {
        None
    } else if es_separador(s.last(), en_windows) {
        ultima_parte(s.drop_last(), en_windows)
    } else if cola_componente(s, en_windows) == seq!['.'] {
        ultima_parte(s.drop_last(), en_windows)
    } else {
        Some(cola_componente(s, en_windows))
    }
}

/// On Windows, a path that starts with a drive (`C:`) has it as a prefix
/// component, which is never a file name.
pub open spec fn tiene_unidad(ruta: Seq<char>, en_windows: bool) -> bool {
    en_windows && ruta.len() >= 2 && ruta[1] == ':' && (('a' <= ruta[0] && ruta[0] <= 'z') || ('A'
        <= ruta[0] && ruta[0] <= 'Z'))
}

/// The path without its drive prefix.
pub open spec fn sin_unidad(ruta: Seq<char>, en_windows: bool) -> Seq<char> {
    if tiene_unidad(ruta, en_windows) {
        ruta.skip(2)
    } else {
        ruta
    }
}

/// The file name of a path, as `Path::file_name` gives it: its last
/// component, unless that is `..`.
pub open spec fn nombre_archivo(ruta: Seq<char>, en_windows: bool) -> Option<Seq<char>> {
    match ultima_parte(sin_unidad(ruta, en_windows), en_windows) {
        Some(n) => if n == seq!['.', '.'] {
            None
        } else {
            Some(n)
        },
        None => None,
    }
}

/// The extension of the path is `xml`, as `Path::extension` reads it: the
/// file name ends in `.xml` and has something before that dot.
pub open spec fn extension_xml(ruta: Seq<char>, en_windows: bool) -> bool {
    match nombre_archivo(ruta, en_windows) {
        Some(n) => nombre_xml(n),
        None => false,
    }
}

/// Where the component that ends at `i` starts.
fn inicio_componente(cs: &Vec<char>, inicio: usize, i: usize, en_windows: bool) -> (j: usize)
    requires
        inicio < i <= cs@.len(),
        !es_separador(cs@[i - 1], en_windows),
    ensures
        inicio <= j < i,
        cola_componente(cs@.subrange(inicio as int, i as int), en_windows) == cs@.subrange(
            j as int,
            i as int,
        ),
{
    let ghost u = cs@.subrange(inicio as int, i as int);
    let mut j: usize = i - 1;
    assert(u.drop_last() =~= cs@.subrange(inicio as int, j as int));
    assert(u.last() == cs@[j as int]);
    assert(cola_componente(u, en_windows) =~= cola_componente(
        cs@.subrange(inicio as int, j as int),
        en_windows,
    ) + cs@.subrange(j as int, i as int));
    while j > inicio && !(cs[j - 1] == '/' || (en_windows && cs[j - 1] == '\\'))
        invariant
            inicio <= j < i <= cs@.len(),
            u == cs@.subrange(inicio as int, i as int),
            cola_componente(u, en_windows) == cola_componente(
                cs@.subrange(inicio as int, j as int),
                en_windows,
            ) + cs@.subrange(j as int, i as int),
        decreases j,
    {
        let ghost v = cs@.subrange(inicio as int, j as int);
        assert(v.drop_last() =~= cs@.subrange(inicio as int, j - 1));
        assert(v.last() == cs@[j - 1]);
        assert(cola_componente(v, en_windows) + cs@.subrange(j as int, i as int) =~= cola_componente(
            cs@.subrange(inicio as int, j - 1),
            en_windows,
        ) + cs@.subrange(j - 1, i as int));
        j = j - 1;
    }
    let ghost v = cs@.subrange(inicio as int, j as int);
    if j > inicio {
        assert(v.last() == cs@[j - 1]);
    }
    assert(cola_componente(v, en_windows) =~= Seq::<char>::empty());
    assert(cola_componente(u, en_windows) =~= cs@.subrange(j as int, i as int));
    j
}

/// A file name ends in `.xml` with something before that dot.
pub open spec fn nombre_xml(n: Seq<char>) -> bool {
    n.len() >= 5 && n.skip(n.len() - 4) == seq!['.', 'x', 'm', 'l']
}

/// Whether `cs[j..i]` is a file name ending in `.xml` with something before the dot.
fn termina_en_xml(cs: &Vec<char>, j: usize, i: usize) -> (r: bool)
    requires
        j <= i <= cs@.len(),
    ensures
        r == nombre_xml(cs@.subrange(j as int, i as int)),
{
    let ghost comp = cs@.subrange(j as int, i as int);
    if i - j >= 5 && cs[i - 4] == '.' && cs[i - 3] == 'x' && cs[i - 2] == 'm' && cs[i - 1] == 'l' {
        assert(comp.skip(comp.len() - 4) =~= seq!['.', 'x', 'm', 'l']);
        true
    } else {
        assert(i - j >= 5 ==> comp.skip(comp.len() - 4)[0] == cs@[i - 4]);
        assert(i - j >= 5 ==> comp.skip(comp.len() - 4)[1] == cs@[i - 3]);
        assert(i - j >= 5 ==> comp.skip(comp.len() - 4)[2] == cs@[i - 2]);
        assert(i - j >= 5 ==> comp.skip(comp.len() - 4)[3] == cs@[i - 1]);
        false
    }
}

/// Whether the path `ruta` names a file with extension `xml`, with the path
/// rules of Windows when `en_windows` holds (`\` separates too, and a drive
/// `C:` is a prefix) and those of other systems otherwise. Of the Windows
/// prefixes only the drive is read as one: a path that starts with a UNC,
/// verbatim or device prefix (`\\server\share`, `\\?\`, `\\.\`) is read as
/// if those were ordinary components.
pub fn extension_valida(ruta: &str, en_windows: bool) -> (r: bool)
    ensures
        r == extension_xml(ruta@, en_windows),
{
    let cs = crate::texto::caracteres(ruta);
    let n = cs.len();
    let inicio: usize = if en_windows && n >= 2 && cs[1] == ':' && (('a' <= cs[0] && cs[0] <= 'z') || (
    'A' <= cs[0] && cs[0] <= 'Z')) {
        2
    } else {
        0
    };
    let ghost t = sin_unidad(ruta@, en_windows);
    assert(t =~= cs@.subrange(inicio as int, n as int));
    let mut i: usize = n;
    while i > inicio
        invariant
            cs@ == ruta@,
            n == cs@.len(),
            inicio <= i <= n,
            t == sin_unidad(ruta@, en_windows),
            ultima_parte(t, en_windows) == ultima_parte(cs@.subrange(inicio as int, i as int), en_windows),
        decreases i,
    {
        let ghost u = cs@.subrange(inicio as int, i as int);
        assert(u.drop_last() =~= cs@.subrange(inicio as int, i - 1));
        assert(u.last() == cs@[i - 1]);
        let c = cs[i - 1];
        if c == '/' || (en_windows && c == '\\') {
            i = i - 1;
        } else {
            let j = inicio_componente(&cs, inicio, i, en_windows);
            let ghost comp = cs@.subrange(j as int, i as int);
            if i - j == 1 && cs[j] == '.' {
                assert(comp =~= seq!['.']);
                i = i - 1;
            } else {
                assert(comp != seq!['.']) by {
                    if comp == seq!['.'] {
                        assert(comp.len() == i - j);
                        assert(comp[0] == cs@[j as int]);
                        assert(seq!['.'][0] == '.');
                    }
                }
                assert(ultima_parte(u, en_windows) == Some(comp));
                let r = termina_en_xml(&cs, j, i);
                assert(comp == seq!['.', '.'] ==> comp.len() == 2);
                return r;
            }
        }
    }
    false
}

/// The run of non-separators at the end of a path made of a prefix that is
/// empty or ends in a separator and a name with no separator is that name.
pub proof fn lema_cola_nombre(p: Seq<char>, n: Seq<char>, en_windows: bool)
    requires
        p.len() == 0 || es_separador(p.last(), en_windows),
        forall|i: int| 0 <= i < n.len() ==> !es_separador(#[trigger] n[i], en_windows),
    ensures
        cola_componente(p + n, en_windows) == n,
    decreases n.len(),
{
    if n.len() == 0 {
        assert(p + n =~= p);
    } else {
        let m = n.drop_last();
        assert forall|i: int| 0 <= i < m.len() implies !es_separador(#[trigger] m[i], en_windows) by {
            assert(m[i] == n[i]);
        }
        lema_cola_nombre(p, m, en_windows);
        assert((p + n).drop_last() =~= p + m);
        assert((p + n).last() == n.last());
        assert(m.push(n.last()) =~= n);
    }
}

/// A path made of a directory that ends in a separator and then a file name
/// (not `.` nor `..`, with no separator in it) has extension `xml` exactly
/// when the file name ends in `.xml` and has something before that dot,
/// whatever the directory and on every system.
pub proof fn ley_extension_xml(dir: Seq<char>, nombre: Seq<char>, en_windows: bool)
    requires
        dir.len() >= 1,
        es_separador(dir.last(), en_windows),
        nombre.len() >= 1,
        nombre != seq!['.'],
        nombre != seq!['.', '.'],
        forall|i: int| 0 <= i < nombre.len() ==> !es_separador(#[trigger] nombre[i], en_windows),
    ensures
        extension_xml(dir + nombre, en_windows) <==> (nombre.len() >= 5 && nombre.subrange(
            nombre.len() - 4,
            nombre.len() as int,
        ) == ".xml"@),
{
    reveal_strlit(".xml");
    let ruta = dir + nombre;
    let pre = if tiene_unidad(ruta, en_windows) {
        dir.skip(2)
    } else {
        dir
    };
    if tiene_unidad(ruta, en_windows) {
        assert(dir.len() >= 3) by {
            if dir.len() == 1 {
                assert(ruta[0] == dir[0]);
            } else if dir.len() == 2 {
                assert(ruta[1] == dir[1]);
            }
        }
        assert(ruta.skip(2) =~= dir.skip(2) + nombre);
        assert(pre.last() == dir.last());
    }
    assert(sin_unidad(ruta, en_windows) == pre + nombre);
    lema_cola_nombre(pre, nombre, en_windows);
    let s = pre + nombre;
    assert(s.last() == nombre.last());
    assert(nombre.last() == nombre[nombre.len() - 1]);
    assert(ultima_parte(s, en_windows) == Some(nombre));
    assert(nombre.skip(nombre.len() - 4) =~= nombre.subrange(nombre.len() - 4, nombre.len() as int));
    assert(".xml"@ =~= seq!['.', 'x', 'm', 'l']);
}

/// The byte order mark U+FEFF.
pub open spec fn bom() -> Seq<char> {
    seq!['\u{feff}']
}

/// The text of a file without its byte order mark: the text between the
/// first mark and the next one when there is a mark, else the whole text.
pub open spec fn sin_bom(contenido: Seq<char>) -> Seq<char> {
    let p = partes(contenido, bom());
    if p.len() > 1 {
        p[1]
    } else {
        p[0]
    }
}

/// The text that is parsed never holds a byte order mark.
pub proof fn ley_sin_bom_sin_marca(contenido: Seq<char>)
    ensures
        !sin_bom(contenido).contains('\u{feff}'),
{
    ley_partes_sin_separador(contenido, '\u{feff}');
    lema_partes_no_vacias(contenido, bom());
    let p = partes(contenido, bom());
    if p.len() > 1 {
        assert(!p[1].contains('\u{feff}'));
    } else {
        assert(!p[0].contains('\u{feff}'));
    }
}

/// Dropping the byte order mark twice is the same as dropping it once.
pub proof fn ley_sin_bom_idempotente(contenido: Seq<char>)
    ensures
        sin_bom(sin_bom(contenido)) == sin_bom(contenido),
{
    ley_sin_bom_sin_marca(contenido);
    lema_partes_sin_caracter(sin_bom(contenido), '\u{feff}');
}

/// A byte order mark before a text that has none does not change the
/// text that is parsed.
pub proof fn ley_bom_inicial(texto: Seq<char>)
    requires
        !texto.contains('\u{feff}'),
    ensures
        sin_bom(bom() + texto) == texto,
        sin_bom(texto) == texto,
{
    let s = bom() + texto;
    assert(s.take(1) =~= bom());
    assert(ocurrencia(s, bom()) == Some(0int));
    assert(s.skip(1) =~= texto);
    lema_partes_sin_caracter(texto, '\u{feff}');
    assert(partes(s, bom()) =~= seq![s.take(0)] + seq![texto]);
}

/// Drops the byte order mark that some programs put before the XML.
pub fn quitar_bom(contenido: &str) -> (r: String)
    ensures
        r@ == sin_bom(contenido@),
{
    proof {
        reveal_strlit("\u{feff}");
        lema_partes_no_vacias(contenido@, bom());
    }
    assert("\u{feff}"@ =~= bom());
    let v = dividir(contenido, "\u{feff}");
    assert(vistas(v@).len() == v@.len());
    if v.len() > 1 {
        assert(v@[1]@ == vistas(v@)[1]);
        v[1].clone()
    } else {
        assert(v@[0]@ == vistas(v@)[0]);
        v[0].clone()
    }
}

/// The root is a `Comprobante` whose `Version` is `3.3`.
pub open spec fn es_cfdi33(e: ElementoV) -> bool {
    e.nombre == "Comprobante"@ && dato(e, "Version"@) == "3.3"@
}

/// A text is taken as a CFDI 3.3 exactly when its root is named
/// `Comprobante` and its `Version` attribute is `3.3`; no other attribute,
/// such as the type of document, counts.
pub proof fn ley_es_cfdi33(e: ElementoV)
    ensures
        es_cfdi33(e) <==> (e.nombre == "Comprobante"@ && dato(e, "Version"@) == "3.3"@),
{
}

/// Accepts what the XML parser gave back when it is a CFDI 3.3.
pub fn validar_comprobante(analizado: Result<Elemento, xmltree::ParseError>) -> (r: Result<
    Elemento,
    ErrorLectura,
>)
    ensures
        analizado is Err ==> r == Err::<Elemento, ErrorLectura>(ErrorLectura::XmlNoValido),
        analizado matches Ok(e) ==> (if es_cfdi33(e@) {
            r == Ok::<Elemento, ErrorLectura>(e)
        } else {
            r == Err::<Elemento, ErrorLectura>(ErrorLectura::NoEsCfdi33)
        }),
        analizado matches Ok(e) ==> (r is Ok <==> (e@.nombre == "Comprobante"@ && dato(
            e@,
            "Version"@,
        ) == "3.3"@)),
{
    match analizado {
        Ok(cfdi) => {
            if crate::texto::iguales(cfdi.nombre.as_str(), "Comprobante")
                && crate::texto::iguales(crate::xml::get_data(&cfdi, "Version"), "3.3") {
                Ok(cfdi)
            } else {
                Err(ErrorLectura::NoEsCfdi33)
            }
        },
        Err(_) => Err(ErrorLectura::XmlNoValido),
    }
}

/// Reads the text of a CFDI file: drops the byte order mark, parses the XML
/// and keeps it only if it is a CFDI 3.3.
pub fn leer_cfdi(contenido: &str) -> (r: Result<Elemento, ErrorLectura>)
    ensures
        r matches Ok(e) ==> xml_analizado(sin_bom(contenido@)) == Some(e@) && es_cfdi33(e@),
        r == Err::<Elemento, ErrorLectura>(ErrorLectura::XmlNoValido) <==> xml_analizado(
            sin_bom(contenido@),
        ) is None,
        r == Err::<Elemento, ErrorLectura>(ErrorLectura::NoEsCfdi33) <==> (xml_analizado(
            sin_bom(contenido@),
        ) matches Some(m) && !es_cfdi33(m)),
        r is Ok <==> (xml_analizado(sin_bom(contenido@)) matches Some(m) && m.nombre
            == "Comprobante"@ && dato(m, "Version"@) == "3.3"@),
        r is Ok || r == Err::<Elemento, ErrorLectura>(ErrorLectura::XmlNoValido) || r == Err::<
            Elemento,
            ErrorLectura,
        >(ErrorLectura::NoEsCfdi33),
{
    let texto = quitar_bom(contenido);
    validar_comprobante(analizar_xml(texto.as_str()))
}

} // verus!
