use vstd::prelude::*;
use vstd::string::StrSliceExecFns;

verus! {

/// Character-wise equality of two strings.
pub fn mismo_texto(a: &str, b: &str) -> (r: bool)
    ensures
        r == (a@ == b@),
{
    let n = a.unicode_len();
    if n != b.unicode_len() {
        return false;
    }
    let mut i: usize = 0;
    while i < n
        invariant
            n == a@.len(),
            n == b@.len(),
            0 <= i <= n,
            forall|j: int| 0 <= j < i ==> a@[j] == b@[j],
        decreases n - i,
    {
        if a.get_char(i) != b.get_char(i) {
            return false;
        }
        i = i + 1;
    }
    assert(a@ =~= b@);
    true
}

/// What `str::trim` keeps of a text.
pub uninterp spec fn recortado(s: Seq<char>) -> Seq<char>;

/// Relies on `str::trim`: the text without its leading and trailing whitespace,
/// which depends on the characters alone.
#[verifier::external_body]
pub(crate) fn recortar<'a>(s: &'a str) -> (r: &'a str)
    ensures
        r@ == recortado(s@),
{
    s.trim()
}

/// Whether `char::is_alphanumeric` holds of a character.
pub uninterp spec fn alfanumerico(c: char) -> bool;

/// Relies on `char::is_alphanumeric`: the Unicode alphabetic or numeric classes.
#[verifier::external_body]
pub(crate) fn es_alfanumerico(c: char) -> (r: bool)
    ensures
        r == alfanumerico(c),
{
    c.is_alphanumeric()
}

/// The characters of an optional text.
pub open spec fn vista_opcion(o: Option<String>) -> Option<Seq<char>> {
    match o {
        Some(s) => Some(s@),
        None => None,
    }
}

/// A copy of an optional text.
pub fn copia_opcion(o: &Option<String>) -> (r: Option<String>)
    ensures
        r == *o,
{
    match o {
        Some(s) => Some(s.clone()),
        None => None,
    }
}

/// Whether an optional text holds exactly `t`.
pub fn opcion_es(o: &Option<String>, t: &str) -> (r: bool)
    ensures
        r == (vista_opcion(*o) == Some(t@)),
{
    match o {
        Some(s) => mismo_texto(s.as_str(), t),
        None => false,
    }
}

/// `n` occurs in `h` as a contiguous run.
pub open spec fn es_subtexto(h: Seq<char>, n: Seq<char>) -> bool {
    exists|i: int| 0 <= i && i + n.len() <= h.len() && #[trigger] h.subrange(i, i + n.len()) == n
}

/// Whether `n` occurs in `h`.
pub fn contiene_subtexto(h: &str, n: &str) -> (r: bool)
    ensures
        r == es_subtexto(h@, n@),
{
    let lh = h.unicode_len();
    let ln = n.unicode_len();
    if ln > lh {
        assert forall|i: int| 0 <= i && i + n@.len() <= h@.len() implies #[trigger] h@.subrange(
            i,
            i + n@.len(),
        ) != n@ by {}
        return false;
    }
    if ln == 0 {
        assert(h@.subrange(0int, 0int + n@.len()) =~= n@);
        return true;
    }
    let mut i: usize = 0;
    while i <= lh - ln
        invariant
            ln > 0,
            lh == h@.len(),
            ln == n@.len(),
            ln <= lh,
            0 <= i <= lh - ln + 1,
            forall|k: int| 0 <= k < i ==> #[trigger] h@.subrange(k, k + ln) != n@,
        decreases lh - ln + 1 - i,
    {
        let mut j: usize = 0;
        let mut iguales = true;
        while j < ln
            invariant
                lh == h@.len(),
                ln == n@.len(),
                i + ln <= lh,
                0 <= j <= ln,
                iguales ==> forall|m: int| 0 <= m < j ==> h@[i + m] == n@[m],
                !iguales ==> h@.subrange(i as int, i + ln) != n@,
            decreases ln - j,
        {
            if iguales && h.get_char(i + j) != n.get_char(j) {
                iguales = false;
                assert(h@.subrange(i as int, i + ln)[j as int] != n@[j as int]);
            }
            j = j + 1;
        }
        if iguales {
            assert(h@.subrange(i as int, i + n@.len()) =~= n@);
            return true;
        }
        i = i + 1;
    }
    false
}

/// What `str::to_lowercase` gives for a text.
pub uninterp spec fn minusculas(s: Seq<char>) -> Seq<char>;

/// Relies on `str::to_lowercase`: the Unicode lowercase mapping, which depends
/// on the characters alone.
#[verifier::external_body]
pub(crate) fn a_minusculas(s: &str) -> (r: String)
    ensures
        r@ == minusculas(s@),
{
    s.to_lowercase()
}

} // verus!
