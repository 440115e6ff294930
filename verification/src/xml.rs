use vstd::prelude::*;

verus! {

/// A node of an XML document, as `xmltree` reads it.
pub enum Nodo {
    Elemento(Elemento),
    Comentario(String),
    CData(String),
    Texto(String),
    Instruccion(String, Option<String>),
}

/// An XML element: its local name, its attributes (each name at most once
/// when it comes from the parser) and its child nodes in document order.
pub struct Elemento {
    pub nombre: String,
    pub atributos: Vec<(String, String)>,
    pub hijos: Vec<Nodo>,
}

/// What a node holds, as mathematical values.
pub enum NodoV {
    Elemento(ElementoV),
    Comentario(Seq<char>),
    CData(Seq<char>),
    Texto(Seq<char>),
    Instruccion(Seq<char>, Option<Seq<char>>),
}

/// What an element holds, as mathematical values: attributes form a map.
pub struct ElementoV {
    pub nombre: Seq<char>,
    pub atributos: Map<Seq<char>, Seq<char>>,
    pub hijos: Seq<NodoV>,
}

/// Position of the first attribute named `k`, or the length of the list.
pub open spec fn primera_clave(s: Seq<(String, String)>, k: Seq<char>) -> int
    decreases s.len(),
{
    if s.len() == 0 {
        0
    } else if s[0].0@ == k {
        0
    } else {
        1 + primera_clave(s.drop_first(), k)
    }
}

/// The attribute map of a list of pairs (the first pair of a name counts).
pub open spec fn mapa_atributos(s: Seq<(String, String)>) -> Map<Seq<char>, Seq<char>> {
    Map::new(|k: Seq<char>| primera_clave(s, k) < s.len(), |k: Seq<char>| s[primera_clave(s, k)].1@)
}

pub open spec fn vista_elemento(e: Elemento) -> ElementoV
    decreases e,
{
    ElementoV {
        nombre: e.nombre@,
        atributos: mapa_atributos(e.atributos@),
        hijos: Seq::new(
            e.hijos@.len(),
            |i: int|
                if 0 <= i < e.hijos@.len() {
                    vista_nodo(e.hijos@[i])
                } else {
                    NodoV::Texto(Seq::empty())
                },
        ),
    }
}

pub open spec fn vista_nodo(n: Nodo) -> NodoV
    decreases n,
{
    match n {
        Nodo::Elemento(e) => NodoV::Elemento(vista_elemento(e)),
        Nodo::Comentario(s) => NodoV::Comentario(s@),
        Nodo::CData(s) => NodoV::CData(s@),
        Nodo::Texto(s) => NodoV::Texto(s@),
        Nodo::Instruccion(s, d) => NodoV::Instruccion(
            s@,
            match d {
                Some(x) => Some(x@),
                None => None,
            },
        ),
    }
}

impl View for Elemento {
    type V = ElementoV;

    open spec fn view(&self) -> ElementoV {
        vista_elemento(*self)
    }
}

impl View for Nodo {
    type V = NodoV;

    open spec fn view(&self) -> NodoV {
        vista_nodo(*self)
    }
}


/// The value of attribute `k` of `e`, or the empty string when it has none.
pub open spec fn dato(e: ElementoV, k: Seq<char>) -> Seq<char> {
    if e.atributos.contains_key(k) {
        e.atributos[k]
    } else {
        Seq::empty()
    }
}

/// The first position whose name is `k` is the one a left-to-right scan stops at.
proof fn lema_primera_clave(s: Seq<(String, String)>, k: Seq<char>, i: int)
    requires
        0 <= i <= s.len(),
        forall|j: int| 0 <= j < i ==> s[j].0@ != k,
        i == s.len() || s[i].0@ == k,
    ensures
        primera_clave(s, k) == i,
    decreases i,
{
    if i > 0 {
        lema_primera_clave(s.drop_first(), k, i - 1);
    }
}

/// The value of the attribute named `key`, or `""` when the element has no
/// such attribute.
pub fn get_data<'a>(cfdi: &'a Elemento, key: &str) -> (r: &'a str)
    ensures
        r@ == dato(cfdi@, key@),
{
    let n = cfdi.atributos.len();
    let mut i: usize = 0;
    while i < n
        invariant
            n == cfdi.atributos@.len(),
            0 <= i <= n,
            forall|j: int| 0 <= j < i ==> cfdi.atributos@[j].0@ != key@,
        decreases n - i,
    {
        if crate::texto::iguales(cfdi.atributos[i].0.as_str(), key) {
            proof {
                lema_primera_clave(cfdi.atributos@, key@, i as int);
            }
            return cfdi.atributos[i].1.as_str();
        }
        i = i + 1;
    }
    proof {
        lema_primera_clave(cfdi.atributos@, key@, n as int);
        reveal_strlit("");
    }
    ""
}


/// The elements among a list of nodes, in order.
pub open spec fn elementos(s: Seq<NodoV>) -> Seq<ElementoV>
    decreases s.len(),
{
    if s.len() == 0 {
        Seq::empty()
    } else {
        let r = elementos(s.drop_last());
        match s.last() {
            NodoV::Elemento(e) => r.push(e),
            _ => r,
        }
    }
}

/// The views of a list of element references.
pub open spec fn vistas_elementos(v: Seq<&Elemento>) -> Seq<ElementoV> {
    v.map_values(|x: &Elemento| x@)
}

/// The child elements of `e`, in document order; text, comments and
/// processing instructions are passed over.
pub fn elementos_hijos(e: &Elemento) -> (r: Vec<&Elemento>)
    ensures
        vistas_elementos(r@) == elementos(e@.hijos),
{
    let n = e.hijos.len();
    let mut r: Vec<&Elemento> = Vec::new();
    let mut i: usize = 0;
    while i < n
        invariant
            n == e.hijos@.len(),
            n == e@.hijos.len(),
            0 <= i <= n,
            vistas_elementos(r@) == elementos(e@.hijos.take(i as int)),
        decreases n - i,
    {
        let ghost antes = r@;
        assert(e@.hijos.take(i + 1).drop_last() =~= e@.hijos.take(i as int));
        assert(e@.hijos.take(i + 1).last() == vista_nodo(e.hijos@[i as int]));
        match &e.hijos[i] {
            Nodo::Elemento(h) => {
                r.push(h);
                assert(vistas_elementos(r@) =~= vistas_elementos(antes).push(h@));
            },
            _ => {},
        }
        i = i + 1;
    }
    assert(e@.hijos.take(n as int) =~= e@.hijos);
    r
}

#[verifier::external_type_specification]
#[verifier::external_body]
pub struct ExParseError(xmltree::ParseError);

#[verifier::external_type_specification]
#[verifier::external_body]
pub struct ExElement(xmltree::Element);

#[verifier::external_type_specification]
#[verifier::external_body]
pub struct ExXMLNode(xmltree::XMLNode);

/// What `xmltree::Element::parse` makes of the UTF-8 encoding of a text:
/// its root element, or nothing when the text is not well-formed XML.
pub uninterp spec fn xml_analizado(texto: Seq<char>) -> Option<ElementoV>;

/// Parses `texto` with `xmltree::Element::parse` over its bytes and copies
/// the tree into an `Elemento`. Trusted: the result is `Ok` exactly when
/// the parser accepts the text, and the tree is a function of the text
/// alone (the attribute order of the parser's hash map does not show in
/// the view). Which parse error comes back is not stated.
#[verifier::external_body]
pub fn analizar_xml(texto: &str) -> (r: Result<Elemento, xmltree::ParseError>)
    ensures
        r is Ok <==> xml_analizado(texto@) is Some,
        r matches Ok(e) ==> xml_analizado(texto@) == Some(e@),
{
    xmltree::Element::parse(texto.as_bytes()).map(desde_element)
}

/// Copies an element of `xmltree` field by field (part of `analizar_xml`).
#[verifier::external_body]
fn desde_element(e: xmltree::Element) -> Elemento {
    Elemento {
        nombre: e.name,
        atributos: e.attributes.into_iter().collect(),
        hijos: e.children.into_iter().map(desde_xml_node).collect(),
    }
}

/// Copies a node of `xmltree`, variant by variant (part of `analizar_xml`).
#[verifier::external_body]
fn desde_xml_node(n: xmltree::XMLNode) -> Nodo {
    match n {
        xmltree::XMLNode::Element(e) => Nodo::Elemento(desde_element(e)),
        xmltree::XMLNode::Comment(s) => Nodo::Comentario(s),
        xmltree::XMLNode::CData(s) => Nodo::CData(s),
        xmltree::XMLNode::Text(s) => Nodo::Texto(s),
        xmltree::XMLNode::ProcessingInstruction(s, d) => Nodo::Instruccion(s, d),
    }
}

} // verus!
