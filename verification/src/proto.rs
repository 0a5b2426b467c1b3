//! The messages of the RPC surface, as plain values.

use vstd::prelude::*;

verus! {

/// A customer as sent to a caller.
#[derive(Debug, PartialEq, Eq)]
pub struct ClienteResponse {
    pub id: i32,
    pub tipo: i32,
    pub nome: String,
    pub pj: bool,
    pub docto: String,
    pub ativo: bool,
    pub bloqueado: bool,
}

/// The mathematical content of a [`ClienteResponse`].
pub struct ClienteResponseView {
    pub id: int,
    pub tipo: int,
    pub nome: Seq<char>,
    pub pj: bool,
    pub docto: Seq<char>,
    pub ativo: bool,
    pub bloqueado: bool,
}

impl View for ClienteResponse {
    type V = ClienteResponseView;

    open spec fn view(&self) -> ClienteResponseView {
        ClienteResponseView {
            id: self.id as int,
            tipo: self.tipo as int,
            nome: self.nome@,
            pj: self.pj,
            docto: self.docto@,
            ativo: self.ativo,
            bloqueado: self.bloqueado,
        }
    }
}

impl Clone for ClienteResponse {
    fn clone(&self) -> (r: ClienteResponse)
        ensures
            r@ == self@,
    {
        ClienteResponse {
            id: self.id,
            tipo: self.tipo,
            nome: self.nome.clone(),
            pj: self.pj,
            docto: self.docto.clone(),
            ativo: self.ativo,
            bloqueado: self.bloqueado,
        }
    }
}

/// What a caller sends to register a customer.
#[derive(Debug, PartialEq, Eq)]
pub struct NovoClienteRequest {
    pub nome: String,
    pub pj: bool,
    pub docto: String,
}

/// The mathematical content of a [`NovoClienteRequest`].
pub struct NovoClienteRequestView {
    pub nome: Seq<char>,
    pub pj: bool,
    pub docto: Seq<char>,
}

impl View for NovoClienteRequest {
    type V = NovoClienteRequestView;

    open spec fn view(&self) -> NovoClienteRequestView {
        NovoClienteRequestView { nome: self.nome@, pj: self.pj, docto: self.docto@ }
    }
}

impl Clone for NovoClienteRequest {
    fn clone(&self) -> (r: NovoClienteRequest)
        ensures
            r@ == self@,
    {
        NovoClienteRequest { nome: self.nome.clone(), pj: self.pj, docto: self.docto.clone() }
    }
}

/// Names one customer by its id.
#[derive(Clone, Copy, Debug, PartialEq, Eq)]
pub struct IdClienteRequest {
    pub id: i32,
}

/// One page of a listing: at most a page's worth of customers, by ascending
/// id.
#[derive(Debug, PartialEq, Eq)]
pub struct ClientePageResponse {
    pub clientes: Vec<ClienteResponse>,
}

impl View for ClientePageResponse {
    type V = Seq<ClienteResponseView>;

    open spec fn view(&self) -> Seq<ClienteResponseView> {
        self.clientes@.map_values(|c: ClienteResponse| c@)
    }
}

} // verus!
