use vstd::prelude::*;
use vstd::string::StrSliceExecFns;

use crate::decimal::DecimalFijo;
use crate::error::{msg, AppError, AppResult};
use crate::texto::{alfanumerico, es_alfanumerico};

verus! {

pub open spec fn es_digito(c: char) -> bool {
    '0' <= c && c <= '9'
}

/// Number of ASCII digits in a text.
pub open spec fn num_digitos(s: Seq<char>) -> nat
    decreases s.len(),
{
    if s.len() == 0 {
        0
    } else {
        num_digitos(s.drop_last()) + if es_digito(s.last()) {
            1nat
        } else {
            0nat
        }
    }
}

/// A SKU: one to fifty characters, each alphanumeric, `-` or `_`.
pub open spec fn sku_valido(s: Seq<char>) -> bool {
    &&& 0 < s.len() <= 50
    &&& forall|i: int| 0 <= i < s.len() ==> alfanumerico(#[trigger] s[i]) || s[i] == '-' || s[i] == '_'
}

/// A phone number: 10 to 15 digits when it starts with `+`, 9 to 15 otherwise.
pub open spec fn telefono_valido(s: Seq<char>) -> bool {
    if s.len() > 0 && s[0] == '+' {
        10 <= num_digitos(s) <= 15
    } else {
        9 <= num_digitos(s) <= 15
    }
}

/// An identity document: 5 to 20 characters.
pub open spec fn documento_valido(s: Seq<char>) -> bool {
    5 <= s.len() <= 20
}

/// Latitude in [-90, 90] and longitude in [-180, 180].
pub open spec fn coordenadas_validas(latitud: DecimalFijo, longitud: DecimalFijo) -> bool {
    latitud.acotado_por(90) && longitud.acotado_por(180)
}

pub fn validar_sku(sku: &str) -> (r: bool)
    ensures
        r == sku_valido(sku@),
{
    let n = sku.unicode_len();
    if n == 0 || n > 50 {
        return false;
    }
    let mut i: usize = 0;
    while i < n
        invariant
            n == sku@.len(),
            0 <= i <= n,
            forall|j: int|
                0 <= j < i ==> alfanumerico(#[trigger] sku@[j]) || sku@[j] == '-' || sku@[j] == '_',
        decreases n - i,
    {
        let c = sku.get_char(i);
        if !(es_alfanumerico(c) || c == '-' || c == '_') {
            return false;
        }
        i = i + 1;
    }
    true
}

/// Counts the ASCII digits of a text.
pub fn contar_digitos(s: &str) -> (r: usize)
    ensures
        r == num_digitos(s@),
{
    let n = s.unicode_len();
    let mut i: usize = 0;
    let mut k: usize = 0;
    while i < n
        invariant
            n == s@.len(),
            0 <= i <= n,
            k == num_digitos(s@.take(i as int)),
            k <= i,
        decreases n - i,
    {
        let c = s.get_char(i);
        assert(s@.take(i + 1).drop_last() == s@.take(i as int));
        if '0' <= c && c <= '9' {
            k = k + 1;
        }
        i = i + 1;
    }
    assert(s@.take(n as int) == s@);
    k
}

pub fn validar_telefono(telefono: &str) -> (r: bool)
    ensures
        r == telefono_valido(telefono@),
{
    let digitos = contar_digitos(telefono);
    if telefono.unicode_len() > 0 && telefono.get_char(0) == '+' {
        10 <= digitos && digitos <= 15
    } else {
        9 <= digitos && digitos <= 15
    }
}

pub fn validar_documento(documento: &str) -> (r: bool)
    ensures
        r == documento_valido(documento@),
{
    let n = documento.unicode_len();
    5 <= n && n <= 20
}

pub fn validar_coordenadas(latitud: &DecimalFijo, longitud: &DecimalFijo) -> (r: AppResult<()>)
    ensures
        r is Ok <==> coordenadas_validas(*latitud, *longitud),
        r is Err ==> r matches Err(AppError::BadRequest(_)),
{
    if !latitud.dentro_de(90) {
        return Err(AppError::BadRequest(msg("Latitud debe estar entre -90 y 90")));
    }
    if !longitud.dentro_de(180) {
        return Err(AppError::BadRequest(msg("Longitud debe estar entre -180 y 180")));
    }
    Ok(())
}

} // verus!
