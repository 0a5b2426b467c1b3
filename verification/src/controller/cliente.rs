//! The rules by which customers are looked up, listed and removed.
//!
//! The queries themselves run against the database, outside this library.
//! Here is what is decided before a query is sent and after its rows have
//! come back.

use crate::erro::Erro;
use crate::model::cliente::Cliente;
use vstd::prelude::*;

verus! {

/// Largest number of customers on one page of a listing.
pub const CLIENTE_PAGE_SIZE: i64 = 100;

/// The part of the table, taken by ascending id, that one page covers: `limit`
/// rows after the first `offset`.
#[derive(Clone, Copy, Debug, PartialEq, Eq, Structural)]
pub struct Janela {
    pub offset: i64,
    pub limit: i64,
}

/// Number of rows that come before page `pagina` when a page has `tamanho`
/// rows.
///
/// Page 0 starts after one row, not after none: the customer with the
/// smallest id is on no page. Callers have come to rely on this, so it stays.
pub open spec fn deslocamento(pagina: int, tamanho: int) -> int {
    pagina * tamanho + 1
}

/// Whether page `pagina` of pages of `tamanho` rows can be asked for: the
/// page is not negative, a page has at least one row, and the number of rows
/// before the page fits the database's 64-bit offset.
pub open spec fn cabe(pagina: int, tamanho: int) -> bool {
    0 <= pagina && 1 <= tamanho && deslocamento(pagina, tamanho) <= i64::MAX
}

/// The window of page `pagina`, counted from 0, when a page has `tamanho`
/// rows, or `None` if that page cannot be asked for.
pub fn lista(pagina: i64, tamanho: i64) -> (r: Option<Janela>)
    ensures
        r is Some <==> cabe(pagina as int, tamanho as int),
        r matches Some(j) ==> j.offset == deslocamento(pagina as int, tamanho as int) && j.limit
            == tamanho,
{
    if pagina < 0 || tamanho < 1 {
        return None;
    }
    assert(pagina * tamanho >= 0) by (nonlinear_arith)
        requires
            pagina >= 0,
            tamanho >= 1,
    ;
    match pagina.checked_mul(tamanho) {
        None => None,
        Some(antes) => match antes.checked_add(1) {
            None => None,
            Some(offset) => Some(Janela { offset, limit: tamanho }),
        },
    }
}

/// The customer among the rows that a lookup by id loaded.
///
/// The id is the table's key, so the lookup loads one row or none. With no
/// row the customer does not exist, and that is an error of its own rather
/// than a missing first element.
pub fn consulta(linhas: Vec<Cliente>) -> (r: Result<Cliente, Erro>)
    ensures
        linhas@.len() > 0 ==> r == Ok::<Cliente, Erro>(linhas@[0]),
        linhas@.len() == 0 ==> r == Err::<Cliente, Erro>(Erro::NotFound),
{
    let mut linhas = linhas;
    if linhas.len() == 0 {
        Err(Erro::NotFound)
    } else {
        Ok(linhas.remove(0))
    }
}

/// The outcome of a removal that deleted `afetadas` rows.
///
/// Removing a customer that does not exist deletes no row and succeeds all
/// the same: removal may be repeated.
pub fn remove(afetadas: usize) -> (r: Result<(), Erro>)
    ensures
        r == Ok::<(), Erro>(()),
{
    Ok(())
}

} // verus!
