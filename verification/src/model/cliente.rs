//! The customer: a row of the table `cliente`, and the data from which a new
//! row is made.

use crate::proto::{
    ClientePageResponse, ClienteResponse, ClienteResponseView, NovoClienteRequest,
    NovoClienteRequestView,
};
use vstd::prelude::*;
use vstd::std_specs::convert::FromSpecImpl;

verus! {

/// A row of the table `cliente`.
#[derive(Debug, PartialEq, Eq)]
pub struct Cliente {
    /// Primary key, given by the database and never changed or used again.
    pub id: i32,
    /// Kind of customer; 0 unless set otherwise.
    pub tipo: i16,
    /// Name of the customer.
    pub nome: String,
    /// Whether the customer is a company rather than a person.
    pub pj: bool,
    /// Document number: a CPF for a person, a CNPJ for a company.
    pub docto: String,
    /// Whether the customer is active.
    pub ativo: bool,
    /// Whether the customer is blocked from operations.
    pub bloqueado: bool,
}

/// The mathematical content of a [`Cliente`].
pub struct ClienteView {
    pub id: int,
    pub tipo: int,
    pub nome: Seq<char>,
    pub pj: bool,
    pub docto: Seq<char>,
    pub ativo: bool,
    pub bloqueado: bool,
}

impl View for Cliente {
    type V = ClienteView;

    open spec fn view(&self) -> ClienteView {
        ClienteView {
            id: self.id as int,
            tipo: self.tipo as int,
            nome: self.nome@,
            pj: self.pj,
            docto: self.docto@,
            ativo: self.ativo,
            bloqueado: self.bloqueado,
        }
    }
}

impl Clone for Cliente {
    fn clone(&self) -> (r: Cliente)
        ensures
            r@ == self@,
    {
        Cliente {
            id: self.id,
            tipo: self.tipo,
            nome: self.nome.clone(),
            pj: self.pj,
            docto: self.docto.clone(),
            ativo: self.ativo,
            bloqueado: self.bloqueado,
        }
    }
}

/// The message that carries a row: every field as the row has it.
pub open spec fn resposta(c: ClienteView) -> ClienteResponseView {
    ClienteResponseView {
        id: c.id,
        tipo: c.tipo,
        nome: c.nome,
        pj: c.pj,
        docto: c.docto,
        ativo: c.ativo,
        bloqueado: c.bloqueado,
    }
}

impl From<Cliente> for ClienteResponse {
    fn from(cliente: Cliente) -> (r: ClienteResponse)
        ensures
            r@ == resposta(cliente@),
    {
        ClienteResponse {
            id: cliente.id,
            tipo: cliente.tipo as i32,
            nome: cliente.nome,
            pj: cliente.pj,
            docto: cliente.docto,
            ativo: cliente.ativo,
            bloqueado: cliente.bloqueado,
        }
    }
}

impl FromSpecImpl<Cliente> for ClienteResponse {
    open spec fn obeys_from_spec() -> bool {
        true
    }

    open spec fn from_spec(cliente: Cliente) -> ClienteResponse {
        ClienteResponse {
            id: cliente.id,
            tipo: cliente.tipo as i32,
            nome: cliente.nome,
            pj: cliente.pj,
            docto: cliente.docto,
            ativo: cliente.ativo,
            bloqueado: cliente.bloqueado,
        }
    }
}

/// The messages that carry the rows `linhas`, one for each row and in the
/// same order.
pub open spec fn respostas(linhas: Seq<ClienteView>) -> Seq<ClienteResponseView> {
    linhas.map_values(|c: ClienteView| resposta(c))
}

/// The content of a vector of rows.
pub open spec fn linhas_de(clientes: Seq<Cliente>) -> Seq<ClienteView> {
    clientes.map_values(|c: Cliente| c@)
}

impl ClientePageResponse {
    /// The page that carries the given rows, in their order.
    pub fn de(clientes: &Vec<Cliente>) -> (r: ClientePageResponse)
        ensures
            r@ == respostas(linhas_de(clientes@)),
    {
        let mut saida: Vec<ClienteResponse> = Vec::new();
        let mut i: usize = 0;
        while i < clientes.len()
            invariant
                i <= clientes.len(),
                saida@.len() == i,
                forall|k: int| 0 <= k < i ==> (#[trigger] saida@[k])@ == resposta(clientes@[k]@),
            decreases clientes.len() - i,
        {
            let c = clientes[i].clone();
            saida.push(ClienteResponse::from(c));
            i = i + 1;
        }
        let r = ClientePageResponse { clientes: saida };
        assert(r@ =~= respostas(linhas_de(clientes@)));
        r
    }
}

/// The data of a customer that is about to be inserted.
#[derive(Debug, PartialEq, Eq)]
pub struct NovoCliente {
    /// Kind of customer, see [`Cliente::tipo`].
    pub tipo: i16,
    /// Name, see [`Cliente::nome`].
    pub nome: String,
    /// Company or person, see [`Cliente::pj`].
    pub pj: bool,
    /// Document number, see [`Cliente::docto`].
    pub docto: String,
    /// Active or not, see [`Cliente::ativo`].
    pub ativo: bool,
    /// Blocked or not, see [`Cliente::bloqueado`].
    pub bloqueado: bool,
}

/// The mathematical content of a [`NovoCliente`].
pub struct NovoClienteView {
    pub tipo: int,
    pub nome: Seq<char>,
    pub pj: bool,
    pub docto: Seq<char>,
    pub ativo: bool,
    pub bloqueado: bool,
}

impl View for NovoCliente {
    type V = NovoClienteView;

    open spec fn view(&self) -> NovoClienteView {
        NovoClienteView {
            tipo: self.tipo as int,
            nome: self.nome@,
            pj: self.pj,
            docto: self.docto@,
            ativo: self.ativo,
            bloqueado: self.bloqueado,
        }
    }
}

impl Default for NovoCliente {
    fn default() -> (r: NovoCliente)
        ensures
            r@ == (NovoClienteView {
                tipo: 0,
                nome: Seq::empty(),
                pj: false,
                docto: Seq::empty(),
                ativo: false,
                bloqueado: false,
            }),
    {
        NovoCliente {
            tipo: 0,
            nome: String::new(),
            pj: false,
            docto: String::new(),
            ativo: false,
            bloqueado: false,
        }
    }
}

/// The data inserted for a request: name, kind of person and document as
/// requested; kind 0, active, not blocked.
pub open spec fn novo(req: NovoClienteRequestView) -> NovoClienteView {
    NovoClienteView {
        tipo: 0,
        nome: req.nome,
        pj: req.pj,
        docto: req.docto,
        ativo: true,
        bloqueado: false,
    }
}

impl From<NovoClienteRequest> for NovoCliente {
    fn from(req: NovoClienteRequest) -> (r: NovoCliente)
        ensures
            r@ == novo(req@),
    {
        NovoCliente {
            tipo: 0,
            nome: req.nome,
            pj: req.pj,
            docto: req.docto,
            ativo: true,
            bloqueado: false,
        }
    }
}

impl FromSpecImpl<NovoClienteRequest> for NovoCliente {
    open spec fn obeys_from_spec() -> bool {
        true
    }

    open spec fn from_spec(req: NovoClienteRequest) -> NovoCliente {
        NovoCliente {
            tipo: 0,
            nome: req.nome,
            pj: req.pj,
            docto: req.docto,
            ativo: true,
            bloqueado: false,
        }
    }
}

} // verus!
