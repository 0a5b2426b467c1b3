//! What can go wrong in the store and in the pool, and the status that a
//! caller is given for each failure.

use vstd::prelude::*;

verus! {

/// Message of the status given when no connection to the database can be had.
pub const DB_ERR_MSG: &'static str = "Impossível conectar ao banco de dados";

/// Message of the status given when a customer could not be registered.
pub const NAO_CADASTRADO_MSG: &'static str = "Usuário não cadastrado";

/// Message of the status given when no customer has the requested id.
pub const NAO_ENCONTRADO_MSG: &'static str = "Usuário não encontrado";

/// Message of the status that ends a listing whose page could not be read.
pub const PAGINA_ERR_MSG: &'static str = "Impossível recuperar página de usuários";

/// A failure of the record store or of the connection pool.
#[derive(Clone, Copy, Debug, PartialEq, Eq, Structural)]
pub enum Erro {
    /// No row has the requested id. Only a lookup fails this way.
    NotFound,
    /// The store refused an insert.
    ConstraintViolation,
    /// The connection to the store broke during an operation.
    ConnectionLost,
    /// The pool could hand out no connection.
    PoolExhausted,
    /// The pool could not reach the store to open a connection.
    ConnectFailed,
}

/// The operations of the service that can fail.
#[derive(Clone, Copy, Debug, PartialEq, Eq, Structural)]
pub enum Operacao {
    /// Registering a customer.
    Cadastra,
    /// Looking a customer up by id.
    Consulta,
    /// Removing a customer by id.
    Deleta,
    /// Listing all customers.
    Lista,
}

/// The kind of failure that a status reports to the caller.
#[derive(Clone, Copy, Debug, PartialEq, Eq, Structural)]
pub enum Code {
    /// What was asked for does not exist.
    NotFound,
    /// The request could not be carried out as given.
    InvalidArgument,
    /// The service itself failed.
    Internal,
}

/// What a caller is told when an operation fails.
#[derive(Debug, PartialEq, Eq)]
pub struct Status {
    pub code: Code,
    pub message: String,
}

/// The mathematical content of a [`Status`].
pub struct StatusView {
    pub code: Code,
    pub message: Seq<char>,
}

impl View for Status {
    type V = StatusView;

    open spec fn view(&self) -> StatusView {
        StatusView { code: self.code, message: self.message@ }
    }
}

/// The status for a failure `erro` of the operation `op`.
///
/// A failure of the pool is an internal error whatever the operation, and a
/// refused insert is an invalid argument. A missing row is reported as not
/// found. A connection lost during an operation is reported as an invalid
/// argument when registering, as not found when looking up, and as an
/// internal error when listing.
///
/// A removal is never answered with not found: removing a customer that
/// does not exist is no failure at all, so whatever does fail a removal is
/// the service's own trouble and is reported as an internal error.
pub open spec fn status_de(op: Operacao, erro: Erro) -> StatusView {
    match erro {
        Erro::PoolExhausted | Erro::ConnectFailed => StatusView {
            code: Code::Internal,
            message: DB_ERR_MSG@,
        },
        Erro::ConstraintViolation => StatusView {
            code: Code::InvalidArgument,
            message: NAO_CADASTRADO_MSG@,
        },
        Erro::NotFound => match op {
            Operacao::Deleta => StatusView { code: Code::Internal, message: DB_ERR_MSG@ },
            _ => StatusView { code: Code::NotFound, message: NAO_ENCONTRADO_MSG@ },
        },
        Erro::ConnectionLost => match op {
            Operacao::Cadastra => StatusView {
                code: Code::InvalidArgument,
                message: NAO_CADASTRADO_MSG@,
            },
            Operacao::Consulta => StatusView {
                code: Code::NotFound,
                message: NAO_ENCONTRADO_MSG@,
            },
            Operacao::Deleta => StatusView { code: Code::Internal, message: DB_ERR_MSG@ },
            Operacao::Lista => StatusView { code: Code::Internal, message: PAGINA_ERR_MSG@ },
        },
    }
}

/// No failure of a removal is answered with not found, and none but a
/// constraint of the store with anything but an internal error.
pub proof fn lemma_removal_never_not_found(erro: Erro)
    ensures
        status_de(Operacao::Deleta, erro).code != Code::NotFound,
        !(erro is ConstraintViolation) ==> status_de(Operacao::Deleta, erro).code
            == Code::Internal,
{
}

/// Not found is the answer only to a missing row, or to a lookup whose
/// connection broke, and never to a removal.
pub proof fn lemma_not_found_only_for_missing(op: Operacao, erro: Erro)
    requires
        status_de(op, erro).code == Code::NotFound,
    ensures
        !(op is Deleta),
        erro is NotFound || (erro is ConnectionLost && op is Consulta),
{
}

impl Status {
    /// A status of not found with the given message.
    pub fn not_found(message: &str) -> (r: Status)
        ensures
            r@ == (StatusView { code: Code::NotFound, message: message@ }),
    {
        Status { code: Code::NotFound, message: message.to_owned() }
    }

    /// A status of invalid argument with the given message.
    pub fn invalid_argument(message: &str) -> (r: Status)
        ensures
            r@ == (StatusView { code: Code::InvalidArgument, message: message@ }),
    {
        Status { code: Code::InvalidArgument, message: message.to_owned() }
    }

    /// A status of internal error with the given message.
    pub fn internal(message: &str) -> (r: Status)
        ensures
            r@ == (StatusView { code: Code::Internal, message: message@ }),
    {
        Status { code: Code::Internal, message: message.to_owned() }
    }

    /// The status that the caller of `op` is given when it fails with `erro`.
    pub fn de(op: Operacao, erro: Erro) -> (r: Status)
        ensures
            r@ == status_de(op, erro),
    {
        match erro {
            Erro::PoolExhausted | Erro::ConnectFailed => Status::internal(DB_ERR_MSG),
            Erro::ConstraintViolation => Status::invalid_argument(NAO_CADASTRADO_MSG),
            Erro::NotFound => match op {
                Operacao::Deleta => Status::internal(DB_ERR_MSG),
                _ => Status::not_found(NAO_ENCONTRADO_MSG),
            },
            Erro::ConnectionLost => match op {
                Operacao::Cadastra => Status::invalid_argument(NAO_CADASTRADO_MSG),
                Operacao::Consulta => Status::not_found(NAO_ENCONTRADO_MSG),
                Operacao::Deleta => Status::internal(DB_ERR_MSG),
                Operacao::Lista => Status::internal(PAGINA_ERR_MSG),
            },
        }
    }
}

impl Clone for Status {
    fn clone(&self) -> (r: Status)
        ensures
            r@ == self@,
    {
        Status { code: self.code, message: self.message.clone() }
    }
}

} // verus!
