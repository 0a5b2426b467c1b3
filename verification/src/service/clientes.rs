//! The answers of the customer service: what a caller is sent for each
//! outcome of the store.
//!
//! An operation on one customer takes a connection from the pool, asks the
//! store, and answers at once. Whatever went wrong on the way arrives here as
//! an [`Erro`] and leaves as the [`Status`] for that operation. A listing
//! answers with a stream instead, see [`lista`].

use crate::config::Config;
use crate::erro::{status_de, Code, Erro, Operacao, Status};
use crate::model::cliente::{novo, resposta, Cliente, ClienteView, NovoClienteView};
use crate::proto::{ClienteResponse, ClienteResponseView, NovoClienteRequestView};
use crate::service::stream::{Action, ActionView, Session, SessionView};
use vstd::prelude::*;

verus! {

/// The answer to a request to register a customer, given what the store
/// made of the insert: the new row as a message, or the status for the
/// failure.
pub fn cadastra(resultado: Result<Cliente, Erro>) -> (r: Result<ClienteResponse, Status>)
    ensures
        match resultado {
            Ok(c) => r matches Ok(m) && m@ == resposta(c@),
            Err(e) => r matches Err(s) && s@ == status_de(Operacao::Cadastra, e),
        },
{
    match resultado {
        Ok(c) => Ok(ClienteResponse::from(c)),
        Err(e) => Err(Status::de(Operacao::Cadastra, e)),
    }
}

/// The answer to a request for one customer, given what the lookup found:
/// the row as a message, or the status for the failure. A customer that does
/// not exist is answered with not found.
pub fn consulta(resultado: Result<Cliente, Erro>) -> (r: Result<ClienteResponse, Status>)
    ensures
        match resultado {
            Ok(c) => r matches Ok(m) && m@ == resposta(c@),
            Err(e) => r matches Err(s) && s@ == status_de(Operacao::Consulta, e),
        },
{
    match resultado {
        Ok(c) => Ok(ClienteResponse::from(c)),
        Err(e) => Err(Status::de(Operacao::Consulta, e)),
    }
}

/// The answer to a request to remove a customer, given what the store made
/// of the removal: nothing to report, or the status for the failure. The
/// status is never not found, since a customer that does not exist is
/// removed without failure.
pub fn deleta(resultado: Result<(), Erro>) -> (r: Result<(), Status>)
    ensures
        match resultado {
            Ok(_) => r is Ok,
            Err(e) => r matches Err(s) && s@ == status_de(Operacao::Deleta, e),
        },
        r matches Err(s) ==> s@.code != Code::NotFound,
{
    match resultado {
        Ok(_) => Ok(()),
        Err(e) => Err(Status::de(Operacao::Deleta, e)),
    }
}

/// The answer to a request to list all customers: a fresh session and its
/// first action. The request itself is answered with the stream at once;
/// the pages, and any failure, follow on the stream.
pub fn lista(config: &Config) -> (r: (Session, Action))
    ensures
        r.0@ == SessionView::initial(config@.page_size),
        r.0@.valid(),
        r.1@ == ActionView::Acquire,
{
    Session::new(config)
}

/// The row that the store holds for the data `dados` once it has given it
/// the id `id`.
pub open spec fn linha(id: int, dados: NovoClienteView) -> ClienteView {
    ClienteView {
        id,
        tipo: dados.tipo,
        nome: dados.nome,
        pj: dados.pj,
        docto: dados.docto,
        ativo: dados.ativo,
        bloqueado: dados.bloqueado,
    }
}

/// A customer is answered as it was registered. For a store that keeps the
/// row it was given, the message that answers the registration, and any
/// later request for that row, carries the name, the kind of person and the
/// document of the request, the id that the store gave, kind 0, active and
/// not blocked.
pub proof fn lemma_registered_as_requested(req: NovoClienteRequestView, id: int)
    ensures
        resposta(linha(id, novo(req))) == (ClienteResponseView {
            id,
            tipo: 0,
            nome: req.nome,
            pj: req.pj,
            docto: req.docto,
            ativo: true,
            bloqueado: false,
        }),
{
}

} // verus!
