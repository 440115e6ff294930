use vstd::prelude::*;
use vstd::string::*;
use vstd::utf8::*;

verus! {

/// Two strings are equal exactly when their UTF-8 encodings are equal.
pub fn iguales(a: &str, b: &str) -> (r: bool)
    ensures
        r == (a@ == b@),
{
    let x = a.as_bytes();
    let y = b.as_bytes();
    proof {
        encode_utf8_decode_utf8(a@);
        encode_utf8_decode_utf8(b@);
    }
    if x.len() != y.len() {
        return false;
    }
    let mut i: usize = 0;
    while i < x.len()
        invariant
            0 <= i <= x@.len(),
            x@.len() == y@.len(),
            x@ == encode_utf8(a@),
            y@ == encode_utf8(b@),
            forall|j: int| 0 <= j < i ==> x@[j] == y@[j],
        decreases x@.len() - i,
    {
        if x[i] != y[i] {
            return false;
        }
        i = i + 1;
    }
    assert(x@ =~= y@);
    true
}

/// The characters of `s`, in order.
pub fn caracteres(s: &str) -> (v: Vec<char>)
    ensures
        v@ == s@,
{
    broadcast use vstd::string::group_string_axioms;
    let mut v: Vec<char> = Vec::new();
    for c in it: s.chars()
        invariant
            v@ == it.seq().take(it.index() as int),
    {
        v.push(c);
    }
    v
}


/// Index of the leftmost occurrence of `sep` in `s`, if there is one.
pub open spec fn ocurrencia(s: Seq<char>, sep: Seq<char>) -> Option<int>
    decreases s.len(),
{
    if s.len() < sep.len() {
        None
    } else if s.take(sep.len() as int) == sep {
        Some(0)
    } else if s.len() == 0 {
        None
    } else {
        match ocurrencia(s.drop_first(), sep) {
            Some(k) => Some(k + 1),
            None => None,
        }
    }
}

/// An occurrence found by `ocurrencia` lies inside `s` and matches `sep`.
pub proof fn lema_ocurrencia(s: Seq<char>, sep: Seq<char>)
    ensures
        ocurrencia(s, sep) matches Some(p) ==> {
            &&& 0 <= p <= s.len() - sep.len()
            &&& s.subrange(p, p + sep.len()) == sep
        },
    decreases s.len(),
{
    if s.len() < sep.len() {
    } else if s.take(sep.len() as int) == sep {
        assert(s.subrange(0, sep.len() as int) =~= s.take(sep.len() as int));
    } else if s.len() == 0 {
        assert(sep.len() == 0);
        assert(s.take(0) =~= sep);
    } else {
        let t = s.drop_first();
        lema_ocurrencia(t, sep);
        if let Some(p) = ocurrencia(s, sep) {
            assert(s.subrange(p, p + sep.len()) =~= t.subrange(p - 1, p - 1 + sep.len()));
        }
    }
}

/// The pieces of `s` between the occurrences of `sep`, scanning from the
/// left without overlap; the way `str::split` cuts a string by a non-empty
/// pattern.
pub open spec fn partes(s: Seq<char>, sep: Seq<char>) -> Seq<Seq<char>>
    decreases s.len(),
{
    if sep.len() == 0 {
        seq![s]
    } else {
        match ocurrencia(s, sep) {
            Some(p) => {
                proof {
                    lema_ocurrencia(s, sep);
                }
                seq![s.take(p)] + partes(s.skip(p + sep.len()), sep)
            },
            None => seq![s],
        }
    }
}

/// The pieces joined again, with `sep` between each two.
pub open spec fn unir_con(ps: Seq<Seq<char>>, sep: Seq<char>) -> Seq<char>
    decreases ps.len(),
{
    if ps.len() == 0 {
        Seq::empty()
    } else if ps.len() == 1 {
        ps[0]
    } else {
        ps[0] + sep + unir_con(ps.drop_first(), sep)
    }
}

/// Joining the pieces of a split with the pattern gives back the text.
pub proof fn ley_unir_partes(s: Seq<char>, sep: Seq<char>)
    requires
        sep.len() > 0,
    ensures
        unir_con(partes(s, sep), sep) == s,
    decreases s.len(),
{
    lema_ocurrencia(s, sep);
    match ocurrencia(s, sep) {
        Some(p) => {
            let resto = s.skip(p + sep.len());
            ley_unir_partes(resto, sep);
            lema_partes_no_vacias(resto, sep);
            assert(partes(s, sep).drop_first() =~= partes(resto, sep));
            assert(s =~= s.take(p) + s.subrange(p, p + sep.len()) + resto);
        },
        None => {},
    }
}

/// `sep` occurs in `s` at position `q`.
pub open spec fn esta_en(s: Seq<char>, sep: Seq<char>, q: int) -> bool {
    0 <= q && q + sep.len() <= s.len() && s.subrange(q, q + sep.len()) == sep
}

/// `ocurrencia` finds the first place where the pattern occurs.
pub proof fn lema_ocurrencia_exacta(s: Seq<char>, sep: Seq<char>, k: int)
    requires
        sep.len() > 0,
        esta_en(s, sep, k),
        forall|q: int| 0 <= q < k ==> !#[trigger] esta_en(s, sep, q),
    ensures
        ocurrencia(s, sep) == Some(k),
    decreases s.len(),
{
    assert(s.take(sep.len() as int) =~= s.subrange(0, sep.len() as int));
    if k > 0 {
        assert(!esta_en(s, sep, 0));
        let t = s.drop_first();
        assert forall|q: int| 0 <= q < k - 1 implies !#[trigger] esta_en(t, sep, q) by {
            assert(!esta_en(s, sep, q + 1));
            if esta_en(t, sep, q) {
                assert(s.subrange(q + 1, q + 1 + sep.len()) =~= t.subrange(q, q + sep.len()));
            }
        }
        assert(t.subrange(k - 1, k - 1 + sep.len()) =~= s.subrange(k, k + sep.len()));
        lema_ocurrencia_exacta(t, sep, k - 1);
    }
}

/// `ocurrencia` finds nothing where the pattern does not occur.
pub proof fn lema_sin_ocurrencia(s: Seq<char>, sep: Seq<char>)
    requires
        sep.len() > 0,
        forall|q: int| !#[trigger] esta_en(s, sep, q),
    ensures
        ocurrencia(s, sep) is None,
    decreases s.len(),
{
    if s.len() >= sep.len() {
        assert(s.take(sep.len() as int) =~= s.subrange(0, sep.len() as int));
        assert(!esta_en(s, sep, 0));
        let t = s.drop_first();
        assert forall|q: int| !#[trigger] esta_en(t, sep, q) by {
            assert(!esta_en(s, sep, q + 1));
            if esta_en(t, sep, q) {
                assert(s.subrange(q + 1, q + 1 + sep.len()) =~= t.subrange(q, q + sep.len()));
            }
        }
        lema_sin_ocurrencia(t, sep);
    }
}

/// Splitting always gives at least one piece.
pub proof fn lema_partes_no_vacias(s: Seq<char>, sep: Seq<char>)
    ensures
        partes(s, sep).len() >= 1,
{
}

/// Where a one-character pattern first occurs, no earlier character is it.
proof fn lema_ocurrencia_caracter(s: Seq<char>, c: char)
    ensures
        ocurrencia(s, seq![c]) matches Some(p) ==> forall|q: int| 0 <= q < p ==> s[q] != c,
        ocurrencia(s, seq![c]) is None ==> forall|q: int| 0 <= q < s.len() ==> s[q] != c,
    decreases s.len(),
{
    if s.len() >= 1 {
        if s[0] == c {
            assert(s.take(1) =~= seq![c]);
        } else {
            assert(s.take(1) != seq![c]) by {
                assert(s.take(1)[0] != seq![c][0]);
            }
            let t = s.drop_first();
            lema_ocurrencia_caracter(t, c);
            lema_ocurrencia(t, seq![c]);
            if let Some(k) = ocurrencia(t, seq![c]) {
                assert(ocurrencia(s, seq![c]) == Some(k + 1));
                assert forall|q: int| 0 <= q < k + 1 implies s[q] != c by {
                    if q > 0 {
                        assert(s[q] == t[q - 1]);
                    }
                }
            } else {
                assert forall|q: int| 0 <= q < s.len() implies s[q] != c by {
                    if q > 0 {
                        assert(s[q] == t[q - 1]);
                    }
                }
            }
        }
    }
}

/// A text without the character `c` is a single piece when split by it.
pub proof fn lema_partes_sin_caracter(s: Seq<char>, c: char)
    requires
        !s.contains(c),
    ensures
        partes(s, seq![c]) == seq![s],
{
    lema_ocurrencia(s, seq![c]);
    if let Some(p) = ocurrencia(s, seq![c]) {
        assert(s.subrange(p, p + 1)[0] == seq![c][0]);
        assert(s[p] == c);
    }
}

/// No piece of a split by one character holds that character.
pub proof fn ley_partes_sin_separador(s: Seq<char>, c: char)
    ensures
        forall|i: int| 0 <= i < partes(s, seq![c]).len() ==> !(#[trigger] partes(s, seq![c])[i]).contains(c),
    decreases s.len(),
{
    lema_ocurrencia(s, seq![c]);
    lema_ocurrencia_caracter(s, c);
    match ocurrencia(s, seq![c]) {
        Some(p) => {
            let resto = s.skip(p + 1);
            ley_partes_sin_separador(resto, c);
            let ps = partes(s, seq![c]);
            assert(ps =~= seq![s.take(p)] + partes(resto, seq![c]));
            assert forall|i: int| 0 <= i < ps.len() implies !(#[trigger] ps[i]).contains(c) by {
                if i == 0 {
                    assert forall|q: int| 0 <= q < s.take(p).len() implies s.take(p)[q] != c by {}
                } else {
                    assert(ps[i] == partes(resto, seq![c])[i - 1]);
                }
            }
        },
        None => {},
    }
}

/// The characters of a list of strings.
pub open spec fn vistas(v: Seq<String>) -> Seq<Seq<char>> {
    v.map_values(|x: String| x@)
}

/// Whether `sep` occurs in `cs` starting at position `i`.
fn coincide(cs: &Vec<char>, sep: &Vec<char>, i: usize) -> (r: bool)
    requires
        i + sep@.len() <= cs@.len(),
    ensures
        r == (cs@.subrange(i as int, i + sep@.len()) == sep@),
{
    let n = cs.len();
    let mut j: usize = 0;
    while j < sep.len()
        invariant
            n == cs@.len(),
            i + sep@.len() <= cs@.len(),
            0 <= j <= sep@.len(),
            forall|k: int| 0 <= k < j ==> cs@[i + k] == sep@[k],
        decreases sep@.len() - j,
    {
        if cs[i + j] != sep[j] {
            assert(cs@.subrange(i as int, i + sep@.len())[j as int] != sep@[j as int]);
            return false;
        }
        j = j + 1;
    }
    assert(cs@.subrange(i as int, i + sep@.len()) =~= sep@);
    true
}

/// Leftmost occurrence of `sep` in `cs` at or after `desde`.
fn buscar(cs: &Vec<char>, sep: &Vec<char>, desde: usize) -> (r: Option<usize>)
    requires
        desde <= cs@.len(),
    ensures
        r matches Some(p) ==> ocurrencia(cs@.skip(desde as int), sep@) == Some(p - desde),
        r is None ==> ocurrencia(cs@.skip(desde as int), sep@) is None,
{
    let n = cs.len();
    let m = sep.len();
    let mut i = desde;
    while i <= n && n - i >= m
        invariant
            desde <= i <= n,
            n == cs@.len(),
            m == sep@.len(),
            ocurrencia(cs@.skip(desde as int), sep@) == (match ocurrencia(cs@.skip(i as int), sep@) {
                Some(k) => Some(k + (i - desde)),
                None => None::<int>,
            }),
        decreases n - i,
    {
        let ghost t = cs@.skip(i as int);
        assert(t.take(m as int) =~= cs@.subrange(i as int, i + m));
        if coincide(cs, sep, i) {
            return Some(i);
        }
        if i == n {
            assert(m > 0) by {
                if m == 0 {
                    assert(cs@.subrange(i as int, i as int) =~= sep@);
                }
            }
            assert(cs@.skip(i as int).len() == 0);
            return None;
        }
        assert(t.drop_first() =~= cs@.skip(i + 1));
        i = i + 1;
    }
    assert(cs@.skip(i as int).len() < m);
    None
}

/// Splits `s` by the non-empty pattern `sep`, as `str::split` does.
pub fn dividir(s: &str, sep: &str) -> (r: Vec<String>)
    requires
        sep@.len() > 0,
    ensures
        vistas(r@) == partes(s@, sep@),
{
    let cs = caracteres(s);
    let ps = caracteres(sep);
    let mut r: Vec<String> = Vec::new();
    let n = cs.len();
    let mut inicio: usize = 0;
    assert(s@.skip(0) =~= s@);
    loop
        invariant
            n == s@.len(),
            cs@ == s@,
            ps@ == sep@,
            sep@.len() > 0,
            inicio <= s@.len(),
            vistas(r@) + partes(s@.skip(inicio as int), sep@) == partes(s@, sep@),
        decreases s@.len() - inicio,
    {
        let ghost t = s@.skip(inicio as int);
        proof {
            lema_ocurrencia(t, sep@);
        }
        match buscar(&cs, &ps, inicio) {
            Some(p) => {
                let pieza = s.substring_char(inicio, p).to_owned();
                assert(pieza@ =~= t.take(p - inicio));
                assert(t.skip(p - inicio + sep@.len()) =~= s@.skip(p + sep@.len()));
                let ghost antes = r@;
                let ghost pieza_v = pieza@;
                r.push(pieza);
                assert(vistas(r@) =~= vistas(antes).push(pieza_v));
                assert(vistas(antes).push(pieza_v) + partes(s@.skip(p + sep@.len()), sep@) =~= vistas(
                    antes,
                ) + (seq![pieza_v] + partes(s@.skip(p + sep@.len()), sep@)));
                inicio = p + ps.len();
            },
            None => {
                let pieza = s.substring_char(inicio, cs.len()).to_owned();
                assert(pieza@ =~= t);
                let ghost antes = r@;
                r.push(pieza);
                assert(vistas(r@) =~= vistas(antes).push(t));
                return r;
            },
        }
    }
}


/// Concatenation of a list of strings.
pub open spec fn une(s: Seq<Seq<char>>) -> Seq<char>
    decreases s.len(),
{
    if s.len() == 0 {
        Seq::empty()
    } else {
        une(s.drop_last()) + s.last()
    }
}

/// Joins the pieces in order.
pub fn concatenar(ps: &[&str]) -> (r: String)
    ensures
        r@ == une(ps@.map_values(|p: &str| p@)),
{
    let mut r = String::new();
    let mut i: usize = 0;
    while i < ps.len()
        invariant
            0 <= i <= ps@.len(),
            r@ == une(ps@.take(i as int).map_values(|p: &str| p@)),
        decreases ps@.len() - i,
    {
        assert(ps@.take(i + 1).map_values(|p: &str| p@).drop_last() =~= ps@.take(i as int).map_values(
            |p: &str| p@,
        ));
        r.append(ps[i]);
        i = i + 1;
    }
    assert(ps@.take(ps@.len() as int) =~= ps@);
    r
}


/// The decimal digit `d`.
pub open spec fn digito(d: int) -> char {
    seq!['0', '1', '2', '3', '4', '5', '6', '7', '8', '9'][d]
}

/// The decimal numeral of `n`, as `{}` formats an integer.
pub open spec fn decimal(n: nat) -> Seq<char>
    decreases n,
{
    if n < 10 {
        seq![digito(n as int)]
    } else {
        decimal(n / 10).push(digito((n % 10) as int))
    }
}

fn cifra(d: u128) -> (r: &'static str)
    requires
        d < 10,
    ensures
        r@ == seq![digito(d as int)],
{
    proof {
        reveal_strlit("0");
        reveal_strlit("1");
        reveal_strlit("2");
        reveal_strlit("3");
        reveal_strlit("4");
        reveal_strlit("5");
        reveal_strlit("6");
        reveal_strlit("7");
        reveal_strlit("8");
        reveal_strlit("9");
    }
    let r = if d == 0 {
        "0"
    } else if d == 1 {
        "1"
    } else if d == 2 {
        "2"
    } else if d == 3 {
        "3"
    } else if d == 4 {
        "4"
    } else if d == 5 {
        "5"
    } else if d == 6 {
        "6"
    } else if d == 7 {
        "7"
    } else if d == 8 {
        "8"
    } else {
        "9"
    };
    assert(r@ =~= seq![digito(d as int)]);
    r
}

/// The number a string of decimal digits stands for, read left to right.
pub open spec fn valor_decimal(s: Seq<char>) -> int
    decreases s.len(),
{
    if s.len() == 0 {
        0
    } else {
        valor_decimal(s.drop_last()) * 10 + (s.last() as int - '0' as int)
    }
}

/// The numeral of `n` is made of the digits `0` to `9` alone, starts with
/// `0` only when it is `0` itself, and reads back as `n`.
pub proof fn ley_decimal(n: nat)
    ensures
        decimal(n).len() >= 1,
        forall|i: int| 0 <= i < decimal(n).len() ==> '0' <= #[trigger] decimal(n)[i] <= '9',
        n > 0 ==> decimal(n)[0] != '0',
        valor_decimal(decimal(n)) == n,
    decreases n,
{
    let ds = seq!['0', '1', '2', '3', '4', '5', '6', '7', '8', '9'];
    assert forall|d: int| 0 <= d < 10 implies (#[trigger] digito(d)) as int == '0' as int + d by {
        assert(digito(d) == ds[d]);
    }
    if n >= 10 {
        ley_decimal(n / 10);
        let p = decimal(n / 10);
        let d = digito((n % 10) as int);
        assert(decimal(n) == p.push(d));
        assert(decimal(n).drop_last() =~= p);
        assert forall|i: int| 0 <= i < decimal(n).len() implies '0' <= #[trigger] decimal(n)[i]
            <= '9' by {
            if i < p.len() {
                assert(decimal(n)[i] == p[i]);
            }
        }
        assert(decimal(n)[0] == p[0]);
        assert(d as int == '0' as int + (n % 10) as int);
        assert(decimal(n).last() == d);
        assert(valor_decimal(decimal(n)) == valor_decimal(p) * 10 + (d as int - '0' as int));
        assert((n / 10) as int * 10 + (n % 10) as int == n);
    } else {
        assert(decimal(n) == seq![digito(n as int)]);
        assert(decimal(n).drop_last() =~= Seq::<char>::empty());
        assert(digito(n as int) as int == '0' as int + n);
        assert(valor_decimal(decimal(n)) == valor_decimal(Seq::<char>::empty()) * 10 + (digito(
            n as int,
        ) as int - '0' as int));
    }
}

/// The decimal numeral of `n`.
pub fn numero(n: u128) -> (r: String)
    ensures
        r@ == decimal(n as nat),
    decreases n,
{
    if n < 10 {
        cifra(n).to_owned()
    } else {
        let mut r = numero(n / 10);
        r.append(cifra(n % 10));
        r
    }
}

/// A date-time `fecha` such as `2019-05-13T10:20:30` can be cut at its
/// first `T` (the empty text is never cut).
pub open spec fn fecha_separable(fecha: Seq<char>) -> bool {
    fecha.len() == 0 || partes(fecha, seq!['T']).len() >= 2
}

/// The date before the first `T` and the time up to the next `T`.
pub fn separar_datetime(datetime: &str) -> (r: (String, String))
    requires
        partes(datetime@, seq!['T']).len() >= 2,
    ensures
        r.0@ == partes(datetime@, seq!['T'])[0],
        r.1@ == partes(datetime@, seq!['T'])[1],
{
    proof {
        reveal_strlit("T");
    }
    assert("T"@ =~= seq!['T']);
    let v = dividir(datetime, "T");
    assert(v@[0]@ == vistas(v@)[0]);
    assert(v@[1]@ == vistas(v@)[1]);
    (v[0].clone(), v[1].clone())
}

/// When a date-time has a single `T`, its date, a `T` and its time give
/// it back, and neither the date nor the time holds a `T`.
pub proof fn ley_fecha_reconstruida(f: Seq<char>)
    requires
        partes(f, seq!['T']).len() == 2,
    ensures
        partes(f, seq!['T'])[0] + seq!['T'] + partes(f, seq!['T'])[1] == f,
        !partes(f, seq!['T'])[0].contains('T'),
        !partes(f, seq!['T'])[1].contains('T'),
{
    reveal_with_fuel(unir_con, 2);
    ley_unir_partes(f, seq!['T']);
    ley_partes_sin_separador(f, 'T');
    let p = partes(f, seq!['T']);
    assert(p.drop_first() =~= seq![p[1]]);
}

/// The UTF-8 bytes of `s` are at least eight and the last eight start a character.
pub open spec fn sello_recortable(s: Seq<char>) -> bool {
    let b = encode_utf8(s);
    b.len() >= 8 && is_char_boundary(b, b.len() - 8)
}

/// The characters encoded by the last eight bytes of `s`.
pub open spec fn cola_sello(s: Seq<char>) -> Seq<char> {
    let b = encode_utf8(s);
    decode_utf8(b.subrange(b.len() - 8, b.len() as int))
}

/// Whether the last eight bytes of `s` can be cut off as a string slice.
pub fn recortable(s: &str) -> (r: bool)
    ensures
        r == sello_recortable(s@),
{
    let n = s.as_bytes().len();
    n >= 8 && s.is_char_boundary(n - 8)
}

/// The string slice made of the last eight bytes of `s`.
pub fn ultimos_ocho(s: &str) -> (r: &str)
    requires
        sello_recortable(s@),
    ensures
        r@ == cola_sello(s@),
{
    let n = s.as_bytes().len();
    let (_, cola) = s.split_at(n - 8);
    proof {
        encode_utf8_decode_utf8(cola@);
    }
    cola
}

} // verus!
